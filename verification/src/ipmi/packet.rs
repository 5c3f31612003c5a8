//! RMCP+ session-establishment packets: Open Session and RAKP messages 1 to 4.
//!
//! Every packet starts with the 4-byte RMCP header, then the 10-byte session
//! header (authentication type, payload type, session ID, sequence number),
//! then the 2-byte little-endian message length and the payload at offset 16.

use vstd::prelude::*;
use vstd::slice::{slice_subrange, slice_to_vec};
use vstd::string::StringSliceAdditionalSpecFns;
use crate::bytes::{le16, le32, le16_value, le32_value, push_le16, push_le32, read_le16, read_le32, extend_bytes, bytes_eq};
use super::{
    IpmiError, ProtocolError, HmacError, hmac_fn, hmac_spec, known_auth, digest_len_spec,
    integrity_code_len, integrity_code_len_spec, rakp_icv_len, pad_key, pad_key_spec,
    PAYLOAD_OPEN_SESSION_REQ, PAYLOAD_OPEN_SESSION_RSP, PAYLOAD_RAKP_M1, PAYLOAD_RAKP_M2,
    PAYLOAD_RAKP_M3, PAYLOAD_RAKP_M4,
};

verus! {

/// The RMCP header this library sends.
pub open spec fn rmcp_header() -> Seq<u8> {
    seq![0xFFu8, 0x00u8, 0xFFu8, 0x07u8]
}

/// RMCP header and session header of a message sent before the session
/// exists: authentication type 0x06 (RMCP+), the payload type, session ID 0
/// and sequence number 0.
pub open spec fn presession_header(payload_type: u8) -> Seq<u8> {
    rmcp_header() + seq![0x06u8, payload_type, 0u8, 0u8, 0u8, 0u8, 0u8, 0u8, 0u8, 0u8]
}

/// An algorithm record of the Open Session Request.
pub open spec fn algorithm_record(kind: u8, alg: u8) -> Seq<u8> {
    seq![kind, 0u8, 0u8, 0x08u8, alg, 0u8, 0u8, 0u8]
}

/// The Open Session Request: 48 bytes, asking for the Administrator
/// privilege with the given algorithms and console session ID.
pub open spec fn open_session_request(auth: u8, integ: u8, confid: u8, init_sid: u32) -> Seq<u8> {
    presession_header(PAYLOAD_OPEN_SESSION_REQ) + le16(32) + seq![0x00u8, 0x04u8, 0x00u8, 0x00u8]
        + le32(init_sid) + algorithm_record(0, auth) + algorithm_record(1, integ)
        + algorithm_record(2, confid)
}

/// The payload type of a received packet, without its encryption and authentication bits.
pub open spec fn payload_type_of(pkt: Seq<u8>) -> u8 {
    pkt[5] & 0x3F
}

/// The message length of a received packet (bytes 14 and 15).
pub open spec fn msg_len_of(pkt: Seq<u8>) -> int {
    le16_value(pkt[14], pkt[15])
}

fn push_presession_header(pkt: &mut Vec<u8>, payload_type: u8)
    ensures
        final(pkt)@ == old(pkt)@ + presession_header(payload_type),
{
    pkt.push(0xFF);
    pkt.push(0x00);
    pkt.push(0xFF);
    pkt.push(0x07);
    pkt.push(0x06);
    pkt.push(payload_type);
    push_le32(pkt, 0);
    push_le32(pkt, 0);
    assert(pkt@ =~= old(pkt)@ + presession_header(payload_type));
}

fn push_algorithm_record(pkt: &mut Vec<u8>, kind: u8, alg: u8)
    ensures
        final(pkt)@ == old(pkt)@ + algorithm_record(kind, alg),
{
    pkt.push(kind);
    pkt.push(0x00);
    pkt.push(0x00);
    pkt.push(0x08);
    pkt.push(alg);
    pkt.push(0x00);
    pkt.push(0x00);
    pkt.push(0x00);
    assert(pkt@ =~= old(pkt)@ + algorithm_record(kind, alg));
}

/// Builds the Open Session Request.
pub fn build_open_session(auth: u8, integ: u8, confid: u8, init_sid: u32) -> (pkt: Vec<u8>)
    ensures
        pkt@ == open_session_request(auth, integ, confid, init_sid),
        pkt@.len() == 48,
{
    let mut pkt: Vec<u8> = Vec::with_capacity(48);
    push_presession_header(&mut pkt, PAYLOAD_OPEN_SESSION_REQ);
    push_le16(&mut pkt, 32);
    pkt.push(0x00);
    pkt.push(0x04);
    pkt.push(0x00);
    pkt.push(0x00);
    push_le32(&mut pkt, init_sid);
    push_algorithm_record(&mut pkt, 0x00, auth);
    push_algorithm_record(&mut pkt, 0x01, integ);
    push_algorithm_record(&mut pkt, 0x02, confid);
    assert(pkt@ =~= open_session_request(auth, integ, confid, init_sid));
    pkt
}

/// The status byte of an Open Session Response: alone when the message
/// length is 1, else after the message tag.
pub open spec fn open_session_status(pkt: Seq<u8>) -> u8 {
    if msg_len_of(pkt) == 1 { pkt[16] } else { pkt[17] }
}

/// What an Open Session Response says: the managed system session ID and the
/// negotiated authentication, integrity and confidentiality algorithms, or why
/// it is refused.
pub open spec fn open_session_response_result(pkt: Seq<u8>) -> Result<(u32, u8, u8, u8), ProtocolError> {
    if pkt.len() < 17 {
        Err(ProtocolError::ResponseTooShort(pkt.len() as usize))
    } else if payload_type_of(pkt) != PAYLOAD_OPEN_SESSION_RSP {
        Err(ProtocolError::NotOpenSessionResponse(payload_type_of(pkt)))
    } else if msg_len_of(pkt) < 1 {
        Err(ProtocolError::MsgLenTooSmall(msg_len_of(pkt) as usize))
    } else if open_session_status(pkt) != 0 {
        Err(ProtocolError::OpenSessionFailed(open_session_status(pkt), msg_len_of(pkt) as usize))
    } else if msg_len_of(pkt) < 36 {
        Err(ProtocolError::OpenSessionMsgLenTooSmall(msg_len_of(pkt) as usize))
    } else {
        Ok((le32_value(pkt[24], pkt[25], pkt[26], pkt[27]) as u32, pkt[32], pkt[40], pkt[48]))
    }
}

/// Whether reading an Open Session Response stays within the packet: every
/// byte that the message length promises and the parser reads is present.
pub open spec fn open_session_response_readable(pkt: Seq<u8>) -> bool {
    (pkt.len() >= 17 && payload_type_of(pkt) == PAYLOAD_OPEN_SESSION_RSP && msg_len_of(pkt) >= 1) ==> {
        &&& msg_len_of(pkt) >= 2 ==> pkt.len() >= 18
        &&& (open_session_status(pkt) == 0 && msg_len_of(pkt) >= 36) ==> pkt.len() >= 49
    }
}

/// Tells whether `parse_open_session_response` can read this packet.
pub fn open_session_response_is_readable(pkt: &[u8]) -> (r: bool)
    ensures
        r == open_session_response_readable(pkt@),
{
    if pkt.len() < 17 || (pkt[5] & 0x3F) != PAYLOAD_OPEN_SESSION_RSP {
        return true;
    }
    let msglen = read_le16(pkt[14], pkt[15]);
    if msglen < 1 {
        return true;
    }
    if msglen >= 2 && pkt.len() < 18 {
        return false;
    }
    let status = if msglen == 1 { pkt[16] } else { pkt[17] };
    !(status == 0 && msglen >= 36 && pkt.len() < 49)
}

/// Parses an Open Session Response into (managed system session ID,
/// authentication, integrity, confidentiality algorithm).
pub fn parse_open_session_response(pkt: &[u8]) -> (r: Result<(u32, u8, u8, u8), ProtocolError>)
    requires
        open_session_response_readable(pkt@),
    ensures
        r == open_session_response_result(pkt@),
{
    if pkt.len() < 17 {
        return Err(ProtocolError::ResponseTooShort(pkt.len()));
    }
    let payload_type = pkt[5] & 0x3F;
    if payload_type != PAYLOAD_OPEN_SESSION_RSP {
        return Err(ProtocolError::NotOpenSessionResponse(payload_type));
    }
    let msglen = read_le16(pkt[14], pkt[15]) as usize;
    if msglen < 1 {
        return Err(ProtocolError::MsgLenTooSmall(msglen));
    }
    let p: usize = 16;
    let actual_status = if msglen == 1 { pkt[p] } else { pkt[p + 1] };
    if actual_status != 0x00 {
        return Err(ProtocolError::OpenSessionFailed(actual_status, msglen));
    }
    if msglen < 36 {
        return Err(ProtocolError::OpenSessionMsgLenTooSmall(msglen));
    }
    let managed_sid = read_le32(pkt[p + 8], pkt[p + 9], pkt[p + 10], pkt[p + 11]);
    let auth_algo = pkt[p + 16];
    let integ_algo = pkt[p + 24];
    let confid_algo = pkt[p + 32];
    Ok((managed_sid, auth_algo, integ_algo, confid_algo))
}

/// The number of user-name bytes that RAKP Message 1 declares (at most 16).
pub open spec fn rakp1_name_len(username: Seq<u8>) -> nat {
    if username.len() < 16 { username.len() } else { 16 }
}

/// RAKP Message 1: managed system session ID, Random_A, requested privilege
/// and the user name. The declared lengths count at most 16 name bytes; the
/// whole name follows.
pub open spec fn rakp_m1_packet(random_a: Seq<u8>, managed_sid: u32, username: Seq<u8>, priv_level: u8) -> Seq<u8> {
    presession_header(PAYLOAD_RAKP_M1) + le16((28 + rakp1_name_len(username)) as int) + seq![0u8, 0u8, 0u8, 0u8]
        + le32(managed_sid) + random_a + seq![priv_level, 0u8, 0u8, rakp1_name_len(username) as u8]
        + username
}

/// Builds RAKP Message 1.
pub fn build_rakp_m1(random_a: &[u8], managed_sid: u32, username: &str, priv_level: u8) -> (pkt: Vec<u8>)
    ensures
        pkt@ == rakp_m1_packet(random_a@, managed_sid, username.spec_bytes(), priv_level),
{
    let name = username.as_bytes();
    let username_len: usize = if name.len() < 16 { name.len() } else { 16 };
    let payload_len: usize = 44 - (16 - username_len);
    let mut pkt: Vec<u8> = Vec::new();
    push_presession_header(&mut pkt, PAYLOAD_RAKP_M1);
    push_le16(&mut pkt, payload_len as u16);
    pkt.push(0x00);
    pkt.push(0x00);
    pkt.push(0x00);
    pkt.push(0x00);
    push_le32(&mut pkt, managed_sid);
    extend_bytes(&mut pkt, random_a);
    pkt.push(priv_level);
    pkt.push(0x00);
    pkt.push(0x00);
    pkt.push(username_len as u8);
    extend_bytes(&mut pkt, name);
    assert(pkt@ =~= rakp_m1_packet(random_a@, managed_sid, username.spec_bytes(), priv_level));
    pkt
}

/// The status byte of RAKP Message 2: after the message tag when the message
/// length is at least 2, else the first payload byte.
pub open spec fn rakp2_status(pkt: Seq<u8>) -> u8 {
    if msg_len_of(pkt) >= 2 { pkt[17] } else { pkt[16] }
}

/// What RAKP Message 2 says: the echoed session ID, Random_B and the BMC GUID,
/// or why it is refused.
pub open spec fn rakp_m2_result(pkt: Seq<u8>) -> Result<(u32, Seq<u8>, Seq<u8>), ProtocolError> {
    if pkt.len() < 56 {
        Err(ProtocolError::Rakp2TooShort(pkt.len() as usize))
    } else if payload_type_of(pkt) != PAYLOAD_RAKP_M2 {
        Err(ProtocolError::NotRakp2(payload_type_of(pkt)))
    } else if msg_len_of(pkt) < 1 {
        Err(ProtocolError::Rakp2MsgLenZero)
    } else if rakp2_status(pkt) != 0 {
        Err(ProtocolError::Rakp2Failed(rakp2_status(pkt)))
    } else {
        Ok((le32_value(pkt[20], pkt[21], pkt[22], pkt[23]) as u32, pkt.subrange(24, 40), pkt.subrange(40, 56)))
    }
}

/// Parses RAKP Message 2 into (echoed session ID, Random_B, BMC GUID).
pub fn parse_rakp_m2(pkt: &[u8]) -> (r: Result<(u32, Vec<u8>, Vec<u8>), ProtocolError>)
    ensures
        match (r, rakp_m2_result(pkt@)) {
            (Ok((sid, rb, guid)), Ok((ssid, srb, sguid))) => sid == ssid && rb@ == srb && guid@ == sguid,
            (Err(e), Err(se)) => e == se,
            _ => false,
        },
{
    if pkt.len() < 56 {
        return Err(ProtocolError::Rakp2TooShort(pkt.len()));
    }
    let payload_type = pkt[5] & 0x3F;
    if payload_type != PAYLOAD_RAKP_M2 {
        return Err(ProtocolError::NotRakp2(payload_type));
    }
    let msglen = read_le16(pkt[14], pkt[15]) as usize;
    if msglen < 1 {
        return Err(ProtocolError::Rakp2MsgLenZero);
    }
    let p: usize = 16;
    let status = if msglen >= 2 { pkt[p + 1] } else { pkt[p] };
    if status != 0x00 {
        return Err(ProtocolError::Rakp2Failed(status));
    }
    let managed_sid = read_le32(pkt[p + 4], pkt[p + 5], pkt[p + 6], pkt[p + 7]);
    let random_b = slice_to_vec(slice_subrange(pkt, p + 8, p + 24));
    let guid = slice_to_vec(slice_subrange(pkt, p + 24, p + 40));
    Ok((managed_sid, random_b, guid))
}

/// The message keyed by the password to authenticate the console in RAKP
/// Message 3: Random_B || console session ID || privilege || name length || name.
pub open spec fn rakp3_icv_input(random_b: Seq<u8>, console_id: u32, priv_level: u8, username: Seq<u8>) -> Seq<u8> {
    random_b + le32(console_id) + seq![priv_level, (username.len() % 256) as u8] + username
}

/// RAKP Message 3 carrying the integrity check value `icv`. The session
/// message-length field (bytes 14 and 15) stays 0; the length of what follows
/// the first two payload bytes (6 + the check value) is written at bytes 16
/// and 17, then two zero bytes, the managed system session ID and the check value.
pub open spec fn rakp_m3_packet(managed_sid: u32, icv: Seq<u8>) -> Seq<u8> {
    presession_header(PAYLOAD_RAKP_M3) + seq![0u8, 0u8] + le16((6 + icv.len()) as int) + seq![0u8, 0u8]
        + le32(managed_sid) + icv
}

/// The integrity check value of RAKP Message 3: the full HMAC digest.
pub open spec fn rakp3_icv(
    console_id: u32,
    random_b: Seq<u8>,
    username: Seq<u8>,
    password: Seq<u8>,
    auth: u8,
    priv_level: u8,
) -> Seq<u8> {
    hmac_spec(auth, pad_key_spec(password), rakp3_icv_input(random_b, console_id, priv_level, username))->0
}

/// Builds RAKP Message 3. The authentication algorithm must be one with an HMAC.
pub fn build_rakp_m3(
    managed_sid: u32,
    console_id: u32,
    random_a: &[u8],
    random_b: &[u8],
    username: &str,
    password: &[u8],
    auth: u8,
    priv_level: u8,
) -> (pkt: Vec<u8>)
    requires
        known_auth(auth),
    ensures
        pkt@ == rakp_m3_packet(managed_sid,
            rakp3_icv(console_id, random_b@, username.spec_bytes(), password@, auth, priv_level)),
        rakp3_icv(console_id, random_b@, username.spec_bytes(), password@, auth, priv_level).len()
            == digest_len_spec(auth),
{
    let icv_len = rakp_icv_len(auth);
    let padded_key = pad_key(password);
    let name = username.as_bytes();
    let mut icv_input: Vec<u8> = Vec::new();
    extend_bytes(&mut icv_input, random_b);
    push_le32(&mut icv_input, console_id);
    icv_input.push(priv_level);
    icv_input.push((name.len() % 256) as u8);
    extend_bytes(&mut icv_input, name);
    assert(icv_input@ =~= rakp3_icv_input(random_b@, console_id, priv_level, username.spec_bytes()));
    let full_icv = match hmac_fn(auth, padded_key.as_slice(), icv_input.as_slice()) {
        Ok(d) => d,
        Err(_) => {
            assert(false);
            Vec::new()
        },
    };
    let icv = slice_subrange(full_icv.as_slice(), 0, icv_len);
    assert(icv@ =~= full_icv@);
    let mut pkt: Vec<u8> = Vec::new();
    push_presession_header(&mut pkt, PAYLOAD_RAKP_M3);
    pkt.push(0x00);
    pkt.push(0x00);
    let sess_len_val: u16 = (6 + icv_len) as u16;
    push_le16(&mut pkt, sess_len_val);
    pkt.push(0x00);
    pkt.push(0x00);
    push_le32(&mut pkt, managed_sid);
    extend_bytes(&mut pkt, icv);
    assert(pkt@ =~= rakp_m3_packet(managed_sid,
        rakp3_icv(console_id, random_b@, username.spec_bytes(), password@, auth, priv_level)));
    pkt
}

/// Whether reading a RAKP Message 4 stays within the packet.
pub open spec fn rakp_m4_readable(pkt: Seq<u8>) -> bool {
    &&& pkt.len() >= 6
    &&& payload_type_of(pkt) == PAYLOAD_RAKP_M4 ==> {
        &&& pkt.len() >= 16
        &&& msg_len_of(pkt) >= 8 ==> pkt.len() >= 18
    }
}

/// Tells whether `parse_rakp_m4` can read this packet.
pub fn rakp_m4_is_readable(pkt: &[u8]) -> (r: bool)
    ensures
        r == rakp_m4_readable(pkt@),
{
    if pkt.len() < 6 {
        return false;
    }
    if (pkt[5] & 0x3F) != PAYLOAD_RAKP_M4 {
        return true;
    }
    if pkt.len() < 16 {
        return false;
    }
    let msglen = read_le16(pkt[14], pkt[15]);
    !(msglen >= 8 && pkt.len() < 18)
}

/// The message keyed by the session integrity key in RAKP Message 4:
/// Random_A || managed system session ID || BMC GUID.
pub open spec fn rakp4_icv_input(random_a: Seq<u8>, bmc_id: u32, bmc_guid: Seq<u8>) -> Seq<u8> {
    random_a + le32(bmc_id) + bmc_guid
}

/// Where the integrity check value of RAKP Message 4 starts: after the GUID,
/// unless the message is exactly 8 bytes plus the check value (some BMCs leave
/// the GUID out).
pub open spec fn rakp4_icv_start(pkt: Seq<u8>, icv_len: nat) -> int {
    if msg_len_of(pkt) - 8 != icv_len { 40 } else { 24 }
}

/// What RAKP Message 4 says: its integrity check value when it matches the
/// HMAC expected under the session integrity key, or why it is refused.
pub open spec fn rakp_m4_result(
    pkt: Seq<u8>,
    auth: u8,
    integ: u8,
    sik: Seq<u8>,
    random_a: Seq<u8>,
    bmc_id: u32,
    bmc_guid: Seq<u8>,
) -> Result<Seq<u8>, ProtocolError> {
    let icv_len = integrity_code_len_spec(integ);
    let start = rakp4_icv_start(pkt, icv_len);
    if payload_type_of(pkt) != PAYLOAD_RAKP_M4 {
        Err(ProtocolError::NotRakp4(payload_type_of(pkt)))
    } else if msg_len_of(pkt) < 8 {
        Err(ProtocolError::Rakp4MsgLenTooSmall(msg_len_of(pkt) as usize))
    } else if pkt[17] != 0 {
        Err(ProtocolError::Rakp4Failed(pkt[17]))
    } else if start + icv_len > pkt.len() {
        Err(ProtocolError::Rakp4TooShortForIcv(icv_len as usize, start as usize, pkt.len() as usize))
    } else {
        match hmac_spec(auth, sik, rakp4_icv_input(random_a, bmc_id, bmc_guid)) {
            None => Err(ProtocolError::Rakp4Hmac(HmacError::UnknownAlgorithm(auth))),
            Some(full) => if pkt.subrange(start, start + icv_len) == full.subrange(0, icv_len as int) {
                Ok(pkt.subrange(start, start + icv_len))
            } else {
                Err(ProtocolError::Rakp4IcvMismatch)
            },
        }
    }
}

/// Parses and checks RAKP Message 4; returns the integrity check value it carries.
pub fn parse_rakp_m4(
    pkt: &[u8],
    auth: u8,
    integ: u8,
    sik: &[u8],
    random_a: &[u8],
    bmc_id: u32,
    bmc_guid: &[u8],
) -> (r: Result<Vec<u8>, ProtocolError>)
    requires
        rakp_m4_readable(pkt@),
    ensures
        match (r, rakp_m4_result(pkt@, auth, integ, sik@, random_a@, bmc_id, bmc_guid@)) {
            (Ok(icv), Ok(sicv)) => icv@ == sicv,
            (Err(e), Err(se)) => e == se,
            _ => false,
        },
{
    let icv_len = integrity_code_len(integ);
    let payload_type = pkt[5] & 0x3F;
    if payload_type != PAYLOAD_RAKP_M4 {
        return Err(ProtocolError::NotRakp4(payload_type));
    }
    let msglen = read_le16(pkt[14], pkt[15]) as usize;
    if msglen < 8 {
        return Err(ProtocolError::Rakp4MsgLenTooSmall(msglen));
    }
    let p: usize = 16;
    let status = pkt[p + 1];
    if status != 0x00 {
        return Err(ProtocolError::Rakp4Failed(status));
    }
    let has_guid = (msglen - 8) != icv_len;
    let icv_start: usize = if has_guid { p + 8 + 16 } else { p + 8 };
    if icv_start + icv_len > pkt.len() {
        return Err(ProtocolError::Rakp4TooShortForIcv(icv_len, icv_start, pkt.len()));
    }
    let received_icv = slice_to_vec(slice_subrange(pkt, icv_start, icv_start + icv_len));
    let mut verify_input: Vec<u8> = Vec::new();
    extend_bytes(&mut verify_input, random_a);
    push_le32(&mut verify_input, bmc_id);
    extend_bytes(&mut verify_input, bmc_guid);
    assert(verify_input@ =~= rakp4_icv_input(random_a@, bmc_id, bmc_guid@));
    let full_expected_icv = match hmac_fn(auth, sik, verify_input.as_slice()) {
        Ok(d) => d,
        Err(_) => {
            return Err(ProtocolError::Rakp4Hmac(HmacError::UnknownAlgorithm(auth)));
        },
    };
    let expected_icv = slice_subrange(full_expected_icv.as_slice(), 0, icv_len);
    if !bytes_eq(received_icv.as_slice(), expected_icv) {
        return Err(ProtocolError::Rakp4IcvMismatch);
    }
    Ok(received_icv)
}


/// The Open Session Request is 48 bytes: the RMCP header, authentication
/// type RMCP+ (0x06), payload type 0x10, session ID and sequence number 0,
/// message length 32; then the Administrator privilege (0x04), the console
/// session ID at bytes 20 to 23, and the authentication (type 0),
/// integrity (type 1) and confidentiality (type 2) records, whose algorithm
/// bytes are at 28, 36 and 44.
pub proof fn law_open_session_request(auth: u8, integ: u8, confid: u8, init_sid: u32)
    ensures
        ({
            let p = open_session_request(auth, integ, confid, init_sid);
            &&& p.len() == 48
            &&& p.subrange(0, 4) == seq![0xFFu8, 0x00u8, 0xFFu8, 0x07u8]
            &&& p[4] == 0x06u8 && p[5] == 0x10u8
            &&& forall|i: int| 6 <= i < 14 ==> #[trigger] p[i] == 0u8
            &&& p[14] == 32u8 && p[15] == 0u8
            &&& p[17] == 0x04u8
            &&& p.subrange(20, 24) == le32(init_sid)
            &&& p[24] == 0u8 && p[27] == 0x08u8 && p[28] == auth
            &&& p[32] == 1u8 && p[35] == 0x08u8 && p[36] == integ
            &&& p[40] == 2u8 && p[43] == 0x08u8 && p[44] == confid
        }),
{
    let p = open_session_request(auth, integ, confid, init_sid);
    assert(p.subrange(0, 4) =~= seq![0xFFu8, 0x00u8, 0xFFu8, 0x07u8]);
    assert(p.subrange(20, 24) =~= le32(init_sid));
}

/// An accepted Open Session Response is a packet of payload type 0x11 whose
/// status byte (byte 17) is 0 and whose message length is at least 36; it
/// gives the managed system session ID held little-endian at bytes 24 to 27
/// and the algorithms at bytes 32, 40 and 48. A non-zero status is the BMC's
/// refusal, with that status.
pub proof fn law_open_session_response(pkt: Seq<u8>)
    ensures
        open_session_response_result(pkt) matches Ok((sid, a, i, c)) ==> {
            &&& pkt.len() >= 17
            &&& pkt[5] & 0x3F == 0x11
            &&& msg_len_of(pkt) >= 36
            &&& pkt[17] == 0u8
            &&& sid as int == pkt[24] + 256 * pkt[25] + 65536 * pkt[26] + 16777216 * pkt[27]
            &&& a == pkt[32] && i == pkt[40] && c == pkt[48]
        },
        (pkt.len() >= 17 && pkt[5] & 0x3F == 0x11 && msg_len_of(pkt) >= 2 && pkt[17] != 0) ==>
            open_session_response_result(pkt) == Err::<(u32, u8, u8, u8), ProtocolError>(
                ProtocolError::OpenSessionFailed(pkt[17], msg_len_of(pkt) as usize)),
{
}

/// RAKP Message 1 carries, after the session header (payload type 0x12),
/// the managed system session ID at bytes 20 to 23, then Random_A, the
/// requested privilege, two zero bytes, the declared user-name length (at
/// most 16) and the user name.
pub proof fn law_rakp_m1(random_a: Seq<u8>, managed_sid: u32, username: Seq<u8>, priv_level: u8)
    ensures
        ({
            let p = rakp_m1_packet(random_a, managed_sid, username, priv_level);
            let k = random_a.len() as int;
            &&& p.len() == 28 + k + username.len()
            &&& p[5] == 0x12u8
            &&& p.subrange(20, 24) == le32(managed_sid)
            &&& p.subrange(24, 24 + k) == random_a
            &&& p[24 + k] == priv_level
            &&& p[27 + k] as int == if username.len() < 16 { username.len() as int } else { 16 }
            &&& p.subrange(28 + k, p.len() as int) == username
        }),
{
    let p = rakp_m1_packet(random_a, managed_sid, username, priv_level);
    let k = random_a.len() as int;
    assert(p.subrange(20, 24) =~= le32(managed_sid));
    assert(p.subrange(24, 24 + k) =~= random_a);
    assert(p.subrange(28 + k, p.len() as int) =~= username);
}

/// An accepted RAKP Message 2 is at least 56 bytes of payload type 0x13 with
/// status 0; Random_B is bytes 24 to 39, the BMC GUID bytes 40 to 55, and the
/// echoed session ID is held little-endian at bytes 20 to 23.
pub proof fn law_rakp_m2(pkt: Seq<u8>)
    ensures
        rakp_m2_result(pkt) matches Ok((sid, rb, guid)) ==> {
            &&& pkt.len() >= 56
            &&& pkt[5] & 0x3F == 0x13
            &&& rakp2_status(pkt) == 0
            &&& rb == pkt.subrange(24, 40) && guid == pkt.subrange(40, 56)
            &&& sid as int == pkt[20] + 256 * pkt[21] + 65536 * pkt[22] + 16777216 * pkt[23]
        },
{
}

/// RAKP Message 3 (payload type 0x14) names the managed system session ID at
/// bytes 20 to 23 and carries from byte 24 on the proof of the password: the
/// HMAC, under the password key, of Random_B, the console session ID, the
/// privilege, the user-name length and the user name.
pub proof fn law_rakp_m3(
    managed_sid: u32,
    console_id: u32,
    random_b: Seq<u8>,
    username: Seq<u8>,
    password: Seq<u8>,
    auth: u8,
    priv_level: u8,
)
    requires
        known_auth(auth),
    ensures
        ({
            let icv = rakp3_icv(console_id, random_b, username, password, auth, priv_level);
            let p = rakp_m3_packet(managed_sid, icv);
            &&& p[5] == 0x14u8
            &&& p[14] == 0u8 && p[15] == 0u8
            &&& p.subrange(16, 18) == le16((6 + icv.len()) as int)
            &&& p.subrange(20, 24) == le32(managed_sid)
            &&& p.subrange(24, p.len() as int) == icv
            &&& hmac_spec(auth, pad_key_spec(password),
                    random_b + le32(console_id) + seq![priv_level, (username.len() % 256) as u8] + username)
                == Some(icv)
        }),
{
    let icv = rakp3_icv(console_id, random_b, username, password, auth, priv_level);
    let p = rakp_m3_packet(managed_sid, icv);
    assert(p.subrange(16, 18) =~= le16((6 + icv.len()) as int));
    assert(p.subrange(20, 24) =~= le32(managed_sid));
    assert(p.subrange(24, p.len() as int) =~= icv);
}

/// RAKP Message 4 is accepted only when it is of payload type 0x15 with
/// status 0 and carries, after the GUID (or right after the session ID when
/// the message is exactly 8 bytes plus the code), the HMAC under the session
/// integrity key of Random_A, the managed system session ID and the BMC GUID,
/// cut to the integrity code length.
pub proof fn law_rakp_m4(
    pkt: Seq<u8>,
    auth: u8,
    integ: u8,
    sik: Seq<u8>,
    random_a: Seq<u8>,
    bmc_id: u32,
    bmc_guid: Seq<u8>,
)
    ensures
        rakp_m4_result(pkt, auth, integ, sik, random_a, bmc_id, bmc_guid) matches Ok(icv) ==> {
            let icl = integrity_code_len_spec(integ) as int;
            let start: int = if msg_len_of(pkt) - 8 == icl { 24 } else { 40 };
            &&& pkt[5] & 0x3F == 0x15
            &&& pkt[17] == 0u8
            &&& msg_len_of(pkt) >= 8
            &&& start + icl <= pkt.len()
            &&& icv == pkt.subrange(start, start + icl)
            &&& hmac_spec(auth, sik, random_a + le32(bmc_id) + bmc_guid) matches Some(f) && icv == f.subrange(0, icl)
        },
{
}

} // verus!
