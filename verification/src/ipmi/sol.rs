//! Serial-over-LAN: the payloads of the SOL commands and the decoding of
//! console output.

use vstd::prelude::*;
use vstd::slice::{slice_subrange, slice_to_vec};
use crate::bytes::{le32, repeat_byte, push_le32, extend_bytes, push_repeated};
use super::{IpmiError, IpmiResult, ProtocolError, SessionFailure};
use super::session::bytes_result_view;

verus! {

/// Network function of the Serial-over-LAN commands.
pub const SOL_NETFN: u8 = 0x0c;
/// Command: activate SOL.
pub const SOL_ACTIVATE_CMD: u8 = 0x20;
/// Command: deactivate SOL.
pub const SOL_DEACTIVATE_CMD: u8 = 0x21;
/// Command: send console input.
pub const SOL_INPUT_CMD: u8 = 0x22;

/// Data of the SOL activation command: session update, SOL activating, no auxiliary data.
pub fn activate_sol_data() -> (d: Vec<u8>)
    ensures
        d@ == seq![0x00u8, 0x01u8, 0x00u8, 0x00u8, 0x00u8, 0x00u8],
{
    vec![0x00, 0x01, 0x00, 0x00, 0x00, 0x00]
}

/// Data of the SOL deactivation command: session update, SOL deactivating.
pub fn deactivate_sol_data() -> (d: Vec<u8>)
    ensures
        d@ == seq![0x00u8, 0x00u8, 0x00u8, 0x00u8, 0x00u8, 0x00u8],
{
    vec![0x00, 0x00, 0x00, 0x00, 0x00, 0x00]
}

/// Number of 0xFF bytes that bring `n` bytes to a multiple of 16 (0 when aligned).
pub open spec fn sol_pad_len(n: nat) -> nat {
    if n % 16 != 0 { (16 - n % 16) as nat } else { 0 }
}

/// The data of a console-input command: 0x00, 0x01, the session sequence
/// number, the input length (one byte), the input, then 0xFF bytes up to a
/// multiple of 16.
pub open spec fn sol_input_data_spec(seq_number: u32, input: Seq<u8>) -> Seq<u8> {
    let head = seq![0x00u8, 0x01u8] + le32(seq_number) + seq![(input.len() % 256) as u8] + input;
    head + repeat_byte(0xFF, sol_pad_len(head.len()))
}

/// Builds the data of a console-input command.
pub fn sol_input_data(seq_number: u32, input: &[u8]) -> (d: Vec<u8>)
    requires
        input@.len() + 32 <= usize::MAX,
    ensures
        d@ == sol_input_data_spec(seq_number, input@),
        d@.len() % 16 == 0,
{
    let mut data: Vec<u8> = Vec::new();
    data.push(0x00);
    data.push(0x01);
    push_le32(&mut data, seq_number);
    data.push((input.len() % 256) as u8);
    extend_bytes(&mut data, input);
    let pad_len: usize = if data.len() % 16 != 0 { 16 - (data.len() % 16) } else { 0 };
    push_repeated(&mut data, 0xFF, pad_len);
    data
}

/// What to send for console input: nothing for empty input; the command data
/// when a session's sequence number is at hand; else the missing session.
pub open spec fn sol_input_plan_spec(seq_number: Option<u32>, input: Seq<u8>) -> Result<Option<Seq<u8>>, IpmiError> {
    if input.len() == 0 {
        Ok(None)
    } else {
        match seq_number {
            None => Err(IpmiError::Session(SessionFailure::NoSession)),
            Some(seq) => Ok(Some(sol_input_data_spec(seq, input))),
        }
    }
}

/// Decides what console input sends: `Ok(None)` when there is nothing to send.
pub fn plan_sol_input(seq_number: Option<u32>, input: &[u8]) -> (r: IpmiResult<Option<Vec<u8>>>)
    requires
        input@.len() + 32 <= usize::MAX,
    ensures
        match (r, sol_input_plan_spec(seq_number, input@)) {
            (Ok(None), Ok(None)) => true,
            (Ok(Some(d)), Ok(Some(sd))) => d@ == sd,
            (Err(e), Err(se)) => e == se,
            _ => false,
        },
{
    if input.len() == 0 {
        return Ok(None);
    }
    match seq_number {
        None => Err(IpmiError::Session(SessionFailure::NoSession)),
        Some(seq) => Ok(Some(sol_input_data(seq, input))),
    }
}

/// The console output carried by a SOL payload: up to the declared number
/// of bytes (byte 7) from offset 8, cut at the end of the payload.
pub open spec fn sol_output_spec(data: Seq<u8>) -> Result<Seq<u8>, IpmiError> {
    if data.len() < 10 {
        Err(IpmiError::Protocol(ProtocolError::SolPayloadTooShort))
    } else {
        let end = if 8 + data[7] < data.len() { 8 + data[7] } else { data.len() as int };
        Ok(data.subrange(8, end))
    }
}

/// Extracts the console output from a SOL payload.
pub fn decode_sol_payload(data: &[u8]) -> (r: IpmiResult<Vec<u8>>)
    ensures
        bytes_result_view(r) == sol_output_spec(data@),
{
    if data.len() < 10 {
        return Err(IpmiError::Protocol(ProtocolError::SolPayloadTooShort));
    }
    let data_len = data[7] as usize;
    let start: usize = 8;
    let end: usize = if start + data_len < data.len() { start + data_len } else { data.len() };
    Ok(slice_to_vec(slice_subrange(data, start, end)))
}


/// Console input is sent as 0x00, 0x01, the session sequence number (4 bytes,
/// little-endian), the input length, the input itself, and 0xFF bytes up to
/// the next multiple of 16 (fewer than 16 of them); empty input sends nothing
/// and input without a session is refused.
pub proof fn law_sol_input(seq_number: u32, input: Seq<u8>)
    ensures
        ({
            let d = sol_input_data_spec(seq_number, input);
            let n = input.len() as int;
            &&& d.len() % 16 == 0
            &&& 7 + n <= d.len() < 7 + n + 16
            &&& d[0] == 0u8 && d[1] == 1u8
            &&& d.subrange(2, 6) == le32(seq_number)
            &&& d[6] as int == n % 256
            &&& d.subrange(7, 7 + n) == input
            &&& forall|i: int| 7 + n <= i < d.len() ==> #[trigger] d[i] == 0xFFu8
        }),
        input.len() == 0 ==> sol_input_plan_spec(None, input) == Ok::<Option<Seq<u8>>, IpmiError>(None),
        input.len() > 0 ==> sol_input_plan_spec(None, input)
            == Err::<Option<Seq<u8>>, IpmiError>(IpmiError::Session(SessionFailure::NoSession)),
        input.len() > 0 ==> sol_input_plan_spec(Some(seq_number), input)
            == Ok::<Option<Seq<u8>>, IpmiError>(Some(sol_input_data_spec(seq_number, input))),
{
    let d = sol_input_data_spec(seq_number, input);
    let n = input.len() as int;
    assert(d.subrange(2, 6) =~= le32(seq_number));
    assert(d.subrange(7, 7 + n) =~= input);
}

/// The console output of a SOL payload of at least 10 bytes is the bytes from
/// offset 8 on, as many as byte 7 declares or up to the end of the payload;
/// a shorter payload is refused.
pub proof fn law_sol_output(data: Seq<u8>)
    ensures
        data.len() < 10 ==> sol_output_spec(data)
            == Err::<Seq<u8>, IpmiError>(IpmiError::Protocol(ProtocolError::SolPayloadTooShort)),
        sol_output_spec(data) matches Ok(out) ==> {
            &&& data.len() >= 10
            &&& out.len() == if 8 + data[7] <= data.len() { data[7] as int } else { data.len() - 8 }
            &&& forall|i: int| 0 <= i < out.len() ==> #[trigger] out[i] == data[8 + i]
        },
{
}

} // verus!
