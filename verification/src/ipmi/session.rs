//! The RMCP+ session: its state, the steps of the RAKP handshake, the
//! framing of IPMI requests and the decoding of responses.
//!
//! The socket work stays with the caller: each step here takes what was
//! received and gives back what to send.

use vstd::prelude::*;
use vstd::slice::{slice_subrange, slice_to_vec};
use vstd::string::{StringSliceAdditionalSpecFns, StrSliceExecFns};
use vstd::utf8::encode_utf8;
use crate::bytes::{le16, le32, repeat_byte, push_le16, push_le32, read_le16, extend_bytes, push_repeated, bytes_eq};
use crate::crypto::{random_u32, random_bytes, aes128_cbc_encrypt_spec, aes128_cbc_decrypt_spec};
use super::{
    IpmiError, IpmiResult, ProtocolError, AuthFailure, HmacError, hmac_fn, hmac_spec, known_auth,
    digest_len_spec, integrity_code_len, integrity_code_len_spec, checksum, checksum_spec, ipmi_pad,
    ipmi_pad_spec, aes_cbc_encrypt, cbc_decrypt, cbc_accepts,
    sik_input, key_constant, pad_key_spec, byte_sum, lemma_checksum_zeroes_sum, AUTH_SHA1, INTEG_SHA1_96, INTEG_NONE, CRYPT_NONE,
    CRYPT_AES_CBC_128,
};
use super::packet::{
    open_session_response_readable, open_session_response_result, parse_open_session_response,
    rakp_m1_packet, build_rakp_m1, open_session_request, build_open_session, rakp_m2_result, parse_rakp_m2, rakp_m3_packet, rakp3_icv,
    build_rakp_m3, rakp_m4_readable, rakp_m4_result, parse_rakp_m4, rmcp_header, msg_len_of,
};

verus! {

/// The state of one RMCP+ session with a BMC.
#[derive(Debug, Clone)]
pub struct IpmiSession {
    pub host: String,
    pub port: u16,
    pub username: String,
    pub password: Vec<u8>,
    pub managed_system_session_id: u32,
    pub initiator_session_id: u32,
    pub auth_algo: u8,
    pub integ_algo: u8,
    pub confid_algo: u8,
    pub seq_number: u32,
    pub ipmi_seq: u8,
    pub sik: Vec<u8>,
    pub k1: Vec<u8>,
    pub k2: Vec<u8>,
    pub random_a: Vec<u8>,
    pub random_b: Vec<u8>,
    pub guid: Vec<u8>,
    pub priv_level: u8,
}

/// A session that has not negotiated anything yet: SHA-1 authentication,
/// SHA1-96 integrity and AES-CBC-128 confidentiality are proposed, the
/// Administrator privilege is asked for, counters and keys are empty.
pub open spec fn fresh_session(
    s: IpmiSession,
    host: Seq<char>,
    port: u16,
    username: Seq<char>,
    password: Seq<char>,
    initiator_session_id: u32,
) -> bool {
    &&& s.host@ == host
    &&& s.port == port
    &&& s.username@ == username
    &&& s.password@ == encode_utf8(password)
    &&& s.managed_system_session_id == 0
    &&& s.initiator_session_id == initiator_session_id
    &&& s.auth_algo == AUTH_SHA1
    &&& s.integ_algo == INTEG_SHA1_96
    &&& s.confid_algo == CRYPT_AES_CBC_128
    &&& s.seq_number == 0
    &&& s.ipmi_seq == 0
    &&& s.sik@.len() == 0
    &&& s.k1@.len() == 0
    &&& s.k2@.len() == 0
    &&& s.random_a@.len() == 0
    &&& s.random_b@.len() == 0
    &&& s.guid@.len() == 0
    &&& s.priv_level == 0x04
}

/// Network function of the application commands.
pub const APP_NETFN: u8 = 0x06;
/// Command: close the session.
pub const CLOSE_SESSION_CMD: u8 = 0x3c;

impl IpmiSession {
    /// A new session with a random console session ID.
    pub fn new(host: String, port: u16, username: String, password: String) -> (s: Self)
        ensures
            fresh_session(s, host@, port, username@, password@, s.initiator_session_id),
    {
        let initiator_session_id = random_u32();
        Self::with_initiator_id(host, port, username, password, initiator_session_id)
    }

    /// A new session with the given console session ID.
    pub fn with_initiator_id(host: String, port: u16, username: String, password: String, initiator_session_id: u32) -> (s: Self)
        ensures
            fresh_session(s, host@, port, username@, password@, initiator_session_id),
    {
        let password_bytes = password.as_str().as_bytes_vec();
        IpmiSession {
            host,
            port,
            username,
            password: password_bytes,
            managed_system_session_id: 0,
            initiator_session_id,
            auth_algo: AUTH_SHA1,
            integ_algo: INTEG_SHA1_96,
            confid_algo: CRYPT_AES_CBC_128,
            seq_number: 0,
            ipmi_seq: 0,
            sik: Vec::new(),
            k1: Vec::new(),
            k2: Vec::new(),
            random_a: Vec::new(),
            random_b: Vec::new(),
            guid: Vec::new(),
            priv_level: 0x04,
        }
    }

    /// Whether the session is established: the BMC gave a session ID and the
    /// session integrity key is known.
    pub open spec fn active(self) -> bool {
        self.managed_system_session_id != 0 && self.sik@.len() != 0
    }

    /// Whether the session is established.
    pub fn is_active(&self) -> (r: bool)
        ensures
            r == self.active(),
    {
        self.managed_system_session_id != 0 && self.sik.len() != 0
    }

    /// The Open Session Request proposing this session's algorithms under its console session ID.
    pub fn open_session_request(&self) -> (pkt: Vec<u8>)
        ensures
            pkt@ == open_session_request(self.auth_algo, self.integ_algo, self.confid_algo, self.initiator_session_id),
    {
        build_open_session(self.auth_algo, self.integ_algo, self.confid_algo, self.initiator_session_id)
    }

    /// Whether RAKP Message 3 can be built in answer to `pkt`: a RAKP
    /// Message 2 that is accepted needs an authentication algorithm with an HMAC.
    pub fn can_answer_rakp_m2(&self, pkt: &[u8]) -> (r: bool)
        ensures
            r == (rakp_m2_result(pkt@) is Ok ==> known_auth(self.auth_algo)),
    {
        match parse_rakp_m2(pkt) {
            Ok(_) => super::is_known_auth(self.auth_algo),
            Err(_) => true,
        }
    }

    /// Takes the Open Session Response: on success the BMC's session ID and
    /// the negotiated algorithms replace the proposed ones.
    pub fn handle_open_session_response(&mut self, pkt: &[u8]) -> (r: IpmiResult<()>)
        requires
            open_session_response_readable(pkt@),
        ensures
            match open_session_response_result(pkt@) {
                Ok((sid, a, i, c)) => r is Ok && *final(self) == (IpmiSession {
                    managed_system_session_id: sid,
                    auth_algo: a,
                    integ_algo: i,
                    confid_algo: c,
                    ..*old(self)
                }),
                Err(e) => r == Err::<(), IpmiError>(IpmiError::Protocol(e)) && *final(self) == *old(self),
            },
    {
        match parse_open_session_response(pkt) {
            Ok((managed_sid, neg_auth, neg_integ, neg_confid)) => {
                self.managed_system_session_id = managed_sid;
                self.auth_algo = neg_auth;
                self.integ_algo = neg_integ;
                self.confid_algo = neg_confid;
                Ok(())
            },
            Err(e) => Err(IpmiError::Protocol(e)),
        }
    }

    /// Starts RAKP with the given Random_A: records it and gives RAKP Message 1.
    pub fn start_rakp(&mut self, random_a: Vec<u8>) -> (m1: Vec<u8>)
        ensures
            *final(self) == (IpmiSession { random_a: random_a, ..*old(self) }),
            m1@ == rakp_m1_packet(random_a@, old(self).managed_system_session_id,
                encode_utf8(old(self).username@), old(self).priv_level),
    {
        let m1 = build_rakp_m1(random_a.as_slice(), self.managed_system_session_id, self.username.as_str(), self.priv_level);
        self.random_a = random_a;
        m1
    }

    /// Starts RAKP with 16 fresh random bytes as Random_A.
    pub fn begin_rakp(&mut self) -> (m1: Vec<u8>)
        ensures
            final(self).random_a@.len() == 16,
            *final(self) == (IpmiSession { random_a: final(self).random_a, ..*old(self) }),
            m1@ == rakp_m1_packet(final(self).random_a@, old(self).managed_system_session_id,
                encode_utf8(old(self).username@), old(self).priv_level),
    {
        let random_a = random_bytes(16);
        self.start_rakp(random_a)
    }

    /// Takes RAKP Message 2: records Random_B and the BMC GUID and gives RAKP
    /// Message 3, which proves the password with the raw privilege level.
    pub fn handle_rakp_m2(&mut self, pkt: &[u8]) -> (r: IpmiResult<Vec<u8>>)
        requires
            rakp_m2_result(pkt@) is Ok ==> known_auth(old(self).auth_algo),
        ensures
            match rakp_m2_result(pkt@) {
                Ok((_, rb, guid)) => {
                    &&& final(self).random_b@ == rb
                    &&& final(self).guid@ == guid
                    &&& *final(self) == (IpmiSession {
                        random_b: final(self).random_b,
                        guid: final(self).guid,
                        ..*old(self)
                    })
                    &&& r matches Ok(m3) && m3@ == rakp_m3_packet(old(self).managed_system_session_id,
                        rakp3_icv(old(self).initiator_session_id, rb, encode_utf8(old(self).username@),
                            old(self).password@, old(self).auth_algo, old(self).priv_level & 0x0F))
                },
                Err(e) => r == Err::<Vec<u8>, IpmiError>(IpmiError::Protocol(e)) && *final(self) == *old(self),
            },
    {
        match parse_rakp_m2(pkt) {
            Ok((_bmc_sid, random_b, guid)) => {
                self.random_b = random_b;
                self.guid = guid;
                let m3 = build_rakp_m3(
                    self.managed_system_session_id,
                    self.initiator_session_id,
                    self.random_a.as_slice(),
                    self.random_b.as_slice(),
                    self.username.as_str(),
                    self.password.as_slice(),
                    self.auth_algo,
                    self.priv_level & 0x0F,
                );
                Ok(m3)
            },
            Err(e) => Err(IpmiError::Protocol(e)),
        }
    }

    /// Derives the session integrity key and K1, K2 from what the handshake
    /// has gathered.
    pub fn derive_session_keys(&self) -> (r: IpmiResult<(Vec<u8>, Vec<u8>, Vec<u8>)>)
        ensures
            r is Ok <==> known_auth(self.auth_algo),
            r matches Ok((sik, k1, k2)) ==> {
                &&& hmac_spec(self.auth_algo, pad_key_spec(self.password@),
                    sik_input(self.random_a@, self.random_b@, self.priv_level & 0x0F,
                        encode_utf8(self.username@))) == Some(sik@)
                &&& hmac_spec(self.auth_algo, sik@, key_constant(1)) == Some(k1@)
                &&& hmac_spec(self.auth_algo, sik@, key_constant(2)) == Some(k2@)
                &&& sik@.len() == digest_len_spec(self.auth_algo)
                &&& k1@.len() == digest_len_spec(self.auth_algo)
                &&& k2@.len() == digest_len_spec(self.auth_algo)
            },
            r matches Err(e) ==> e == IpmiError::Protocol(ProtocolError::Hmac(HmacError::UnknownAlgorithm(self.auth_algo))),
    {
        super::derive_session_keys(
            self.auth_algo,
            self.password.as_slice(),
            self.random_a.as_slice(),
            self.random_b.as_slice(),
            self.username.as_str(),
            self.priv_level & 0x0F,
        )
    }

    /// Takes RAKP Message 4 under the keys derived from what the handshake has
    /// gathered: when its check value matches under the derived session
    /// integrity key, that key, K1 and K2 become the session's.
    pub fn finish_rakp(&mut self, pkt: &[u8]) -> (r: IpmiResult<()>)
        requires
            rakp_m4_readable(pkt@),
        ensures
            match derived_sik(*old(self)) {
                None => r == Err::<(), IpmiError>(IpmiError::Protocol(ProtocolError::Hmac(
                    HmacError::UnknownAlgorithm(old(self).auth_algo)))) && *final(self) == *old(self),
                Some(sik) => match rakp_m4_result(pkt@, old(self).auth_algo, old(self).integ_algo, sik,
                    old(self).random_a@, old(self).managed_system_session_id, old(self).guid@) {
                    Ok(_) => {
                        &&& r is Ok
                        &&& final(self).sik@ == sik
                        &&& hmac_spec(old(self).auth_algo, sik, key_constant(1)) == Some(final(self).k1@)
                        &&& hmac_spec(old(self).auth_algo, sik, key_constant(2)) == Some(final(self).k2@)
                        &&& *final(self) == (IpmiSession {
                            sik: final(self).sik,
                            k1: final(self).k1,
                            k2: final(self).k2,
                            ..*old(self)
                        })
                    },
                    Err(e) => r == Err::<(), IpmiError>(IpmiError::Protocol(e)) && *final(self) == *old(self),
                },
            },
    {
        match self.derive_session_keys() {
            Err(e) => Err(e),
            Ok((sik, k1, k2)) => self.handle_rakp_m4(pkt, sik, k1, k2),
        }
    }

    /// Takes RAKP Message 4: when its check value matches under `sik`, the
    /// keys become the session's.
    fn handle_rakp_m4(&mut self, pkt: &[u8], sik: Vec<u8>, k1: Vec<u8>, k2: Vec<u8>) -> (r: IpmiResult<()>)
        requires
            rakp_m4_readable(pkt@),
        ensures
            match rakp_m4_result(pkt@, old(self).auth_algo, old(self).integ_algo, sik@, old(self).random_a@,
                old(self).managed_system_session_id, old(self).guid@) {
                Ok(_) => r is Ok && *final(self) == (IpmiSession { sik: sik, k1: k1, k2: k2, ..*old(self) }),
                Err(e) => r == Err::<(), IpmiError>(IpmiError::Protocol(e)) && *final(self) == *old(self),
            },
    {
        match parse_rakp_m4(
            pkt,
            self.auth_algo,
            self.integ_algo,
            sik.as_slice(),
            self.random_a.as_slice(),
            self.managed_system_session_id,
            self.guid.as_slice(),
        ) {
            Ok(_) => {
                self.sik = sik;
                self.k1 = k1;
                self.k2 = k2;
                Ok(())
            },
            Err(e) => Err(IpmiError::Protocol(e)),
        }
    }
}

/// The session integrity key that the handshake gathered in `s` gives: the
/// HMAC under the padded password of Random_A || Random_B || raw privilege ||
/// user-name length || user name (`None` when the algorithm has no HMAC).
pub open spec fn derived_sik(s: IpmiSession) -> Option<Seq<u8>> {
    hmac_spec(s.auth_algo, pad_key_spec(s.password@),
        sik_input(s.random_a@, s.random_b@, s.priv_level & 0x0F, encode_utf8(s.username@)))
}

/// The first part of an IPMI LAN request: responder address 0x20 (the BMC)
/// and the network function shifted over the responder LUN 0.
pub open spec fn lan_request_head(netfn: u8) -> Seq<u8> {
    seq![0x20u8, ((netfn as int * 4) % 256) as u8]
}

/// The second part of an IPMI LAN request: requester address 0x81, the
/// request sequence number (6 bits) over requester LUN 0, the command and its data.
pub open spec fn lan_request_body(ipmi_seq: u8, cmd: u8, data: Seq<u8>) -> Seq<u8> {
    seq![0x81u8, ((ipmi_seq as int % 64) * 4) as u8, cmd] + data
}

/// An IPMI LAN request: each of its two parts followed by its checksum.
pub open spec fn lan_request(netfn: u8, ipmi_seq: u8, cmd: u8, data: Seq<u8>) -> Seq<u8> {
    lan_request_head(netfn) + seq![checksum_spec(lan_request_head(netfn))]
        + lan_request_body(ipmi_seq, cmd, data) + seq![checksum_spec(lan_request_body(ipmi_seq, cmd, data))]
}

/// The payload type of an IPMI message in the session: bit 6 when an
/// integrity algorithm is in use, bit 7 when a confidentiality algorithm is.
pub open spec fn session_payload_type(integ: u8, confid: u8) -> u8 {
    ((if integ != INTEG_NONE { 0x40int } else { 0 }) + (if confid != CRYPT_NONE { 0x80int } else { 0 })) as u8
}

/// Number of 0xFF bytes that bring `n` bytes to a multiple of 4.
pub open spec fn trailer_pad_len(n: int) -> nat {
    ((4 - (n % 4)) % 4) as nat
}

/// The part of a session packet that the integrity code covers: session
/// header, message length, payload, integrity pad, pad length and next header (0x07).
pub open spec fn authenticated_region(payload_type: u8, sid: u32, seq: u32, msg_len: int, body: Seq<u8>, pad: nat) -> Seq<u8> {
    seq![0x06u8, payload_type] + le32(sid) + le32(seq) + le16(msg_len) + body + repeat_byte(0xFF, pad)
        + seq![pad as u8, 0x07u8]
}

/// The region of a request packet that the integrity code covers. With
/// AES-CBC-128 the payload is the IV followed by the encrypted, padded request
/// (encrypted under the first 16 bytes of K2); otherwise it is the request itself.
pub open spec fn request_region(s: IpmiSession, netfn: u8, cmd: u8, data: Seq<u8>, iv: Seq<u8>) -> Seq<u8> {
    let msg = lan_request(netfn, s.ipmi_seq, cmd, data);
    let pt = session_payload_type(s.integ_algo, s.confid_algo);
    if s.confid_algo == CRYPT_AES_CBC_128 {
        let body = iv + aes128_cbc_encrypt_spec(s.k2@.subrange(0, 16), iv, ipmi_pad_spec(msg));
        authenticated_region(pt, s.managed_system_session_id, s.seq_number, body.len() as int, body,
            trailer_pad_len((18 + body.len()) as int))
    } else {
        authenticated_region(pt, s.managed_system_session_id, s.seq_number, msg.len() as int, msg,
            trailer_pad_len((16 + msg.len()) as int))
    }
}

/// The request packet of session `s` for `netfn`/`cmd` with `data`: the RMCP
/// header, the covered region and the integrity code (the HMAC under K1 cut to
/// the integrity algorithm's length), or the HMAC's failure.
pub open spec fn command_packet(s: IpmiSession, netfn: u8, cmd: u8, data: Seq<u8>, iv: Seq<u8>) -> Result<Seq<u8>, IpmiError> {
    let region = request_region(s, netfn, cmd, data, iv);
    match hmac_spec(s.auth_algo, s.k1@, region) {
        None => Err(IpmiError::Protocol(ProtocolError::Hmac(HmacError::UnknownAlgorithm(s.auth_algo)))),
        Some(full) => Ok(rmcp_header() + region + full.subrange(0, integrity_code_len_spec(s.integ_algo) as int)),
    }
}

/// Every request that session `s` frames is addressed to the session the
/// BMC granted: after the RMCP header, the authentication type is RMCP+
/// (0x06), bytes 6 to 9 hold the managed system session ID that the Open
/// Session Response gave (never the console's own ID) and bytes 10 to 13 the
/// session sequence number, both little-endian; the payload type has bit 6
/// exactly when an integrity algorithm is in use and bit 7 exactly when a
/// confidentiality algorithm is.
pub proof fn law_request_session_fields(s: IpmiSession, netfn: u8, cmd: u8, data: Seq<u8>, iv: Seq<u8>)
    ensures
        command_packet(s, netfn, cmd, data, iv) matches Ok(p) ==> {
            &&& p.len() >= 16
            &&& p.subrange(0, 4) == seq![0xFFu8, 0x00u8, 0xFFu8, 0x07u8]
            &&& p[4] == 0x06u8
            &&& p.subrange(6, 10) == le32(s.managed_system_session_id)
            &&& p.subrange(10, 14) == le32(s.seq_number)
            &&& ((p[5] & 0x40) != 0) == (s.integ_algo != INTEG_NONE)
            &&& ((p[5] & 0x80) != 0) == (s.confid_algo != CRYPT_NONE)
        },
{
    let region = request_region(s, netfn, cmd, data, iv);
    let pt = session_payload_type(s.integ_algo, s.confid_algo);
    if let Ok(p) = command_packet(s, netfn, cmd, data, iv) {
        let full = hmac_spec(s.auth_algo, s.k1@, region)->0;
        assert(p == rmcp_header() + region + full.subrange(0, integrity_code_len_spec(s.integ_algo) as int));
        assert(p.subrange(0, 4) =~= seq![0xFFu8, 0x00u8, 0xFFu8, 0x07u8]);
        assert(p.subrange(6, 10) =~= le32(s.managed_system_session_id));
        assert(p.subrange(10, 14) =~= le32(s.seq_number));
        assert(p[5] == pt);
        assert(((0u8 & 0x40) == 0u8) && ((0u8 & 0x80) == 0u8) && ((0x40u8 & 0x40) != 0u8) && ((0x40u8 & 0x80) == 0u8)
            && ((0x80u8 & 0x40) == 0u8) && ((0x80u8 & 0x80) != 0u8) && ((0xC0u8 & 0x40) != 0u8)
            && ((0xC0u8 & 0x80) != 0u8)) by (bit_vector);
    }
}

/// The session after one request: both sequence numbers advance, wrapping.
pub open spec fn advanced(s: IpmiSession) -> IpmiSession {
    IpmiSession {
        seq_number: if s.seq_number == u32::MAX { 0 } else { (s.seq_number + 1) as u32 },
        ipmi_seq: if s.ipmi_seq == u8::MAX { 0 } else { (s.ipmi_seq + 1) as u8 },
        ..s
    }
}

/// Whether the session can frame a request: AES-CBC-128 needs 16 bytes of K2.
pub open spec fn can_frame(s: IpmiSession) -> bool {
    s.confid_algo == CRYPT_AES_CBC_128 ==> s.k2@.len() >= 16
}

/// What an AES-CBC-128 request packet `p` carries: the encrypted flag in its
/// payload type, and a message length of 16 plus a whole number of blocks that
/// lies within the packet, where the 16 bytes at offset 16 are the IV and the
/// blocks after them decrypt, under the first 16 bytes of `k2` and that IV, to
/// the padded request `msg`.
pub open spec fn encrypted_request_layout(k2: Seq<u8>, msg: Seq<u8>, p: Seq<u8>) -> bool {
    let q = msg_len_of(p);
    &&& p.len() >= 32
    &&& p[5] & 0x80 != 0
    &&& 32 <= 16 + q <= p.len()
    &&& (q - 16) % 16 == 0
    &&& aes128_cbc_decrypt_spec(k2.subrange(0, 16), p.subrange(16, 32), p.subrange(32, 16 + q)) == ipmi_pad_spec(msg)
}

fn push_authenticated_region(pkt: &mut Vec<u8>, payload_type: u8, sid: u32, seq: u32, msg_len: u16, body: &[u8], pad: usize)
    requires
        pad < 4,
    ensures
        final(pkt)@ == old(pkt)@ + authenticated_region(payload_type, sid, seq, msg_len as int, body@, pad as nat),
{
    pkt.push(0x06);
    pkt.push(payload_type);
    push_le32(pkt, sid);
    push_le32(pkt, seq);
    push_le16(pkt, msg_len);
    extend_bytes(pkt, body);
    push_repeated(pkt, 0xFF, pad);
    pkt.push(pad as u8);
    pkt.push(0x07);
    assert(pkt@ =~= old(pkt)@ + authenticated_region(payload_type, sid, seq, msg_len as int, body@, pad as nat));
}

/// Builds an IPMI LAN request with its two checksums.
pub fn build_lan_request(netfn: u8, ipmi_seq: u8, cmd: u8, data: &[u8]) -> (msg: Vec<u8>)
    ensures
        msg@ == lan_request(netfn, ipmi_seq, cmd, data@),
        msg@.len() == data@.len() + 7,
{
    let mut head: Vec<u8> = Vec::new();
    head.push(0x20);
    head.push(((netfn as u16 * 4) % 256) as u8);
    let mut body: Vec<u8> = Vec::new();
    body.push(0x81);
    body.push((ipmi_seq % 64) * 4);
    body.push(cmd);
    extend_bytes(&mut body, data);
    assert(head@ =~= lan_request_head(netfn));
    assert(body@ =~= lan_request_body(ipmi_seq, cmd, data@));
    let c1 = checksum(head.as_slice());
    let c2 = checksum(body.as_slice());
    let mut msg = head;
    msg.push(c1);
    extend_bytes(&mut msg, body.as_slice());
    msg.push(c2);
    msg
}

fn encrypted_body(k2: &[u8], iv: &[u8], msg: &[u8]) -> (body: Vec<u8>)
    requires
        k2@.len() >= 16,
        iv@.len() == 16,
        msg@.len() + 32 <= usize::MAX,
    ensures
        body@ == iv@ + aes128_cbc_encrypt_spec(k2@.subrange(0, 16), iv@, ipmi_pad_spec(msg@)),
        body@.len() <= msg@.len() + 32,
        aes128_cbc_encrypt_spec(k2@.subrange(0, 16), iv@, ipmi_pad_spec(msg@)).len() == ipmi_pad_spec(msg@).len(),
        aes128_cbc_decrypt_spec(k2@.subrange(0, 16), iv@, aes128_cbc_encrypt_spec(k2@.subrange(0, 16), iv@, ipmi_pad_spec(msg@)))
            == ipmi_pad_spec(msg@),
{
    let padded = ipmi_pad(msg);
    proof { super::lemma_ipmi_pad_shape(msg@); }
    let aes_key = slice_subrange(k2, 0, 16);
    let encrypted = match aes_cbc_encrypt(aes_key, iv, padded.as_slice()) {
        Ok(c) => c,
        Err(_) => {
            assert(false);
            Vec::new()
        },
    };
    let mut body: Vec<u8> = slice_to_vec(iv);
    extend_bytes(&mut body, encrypted.as_slice());
    body
}

fn region_with_body(payload_type: u8, sid: u32, seq: u32, body: &[u8], offset: usize) -> (region: Vec<u8>)
    requires
        offset <= 18,
        body@.len() + 32 <= usize::MAX,
    ensures
        region@ == authenticated_region(payload_type, sid, seq, body@.len() as int, body@,
            trailer_pad_len(offset + body@.len())),
{
    let mut region: Vec<u8> = Vec::new();
    let msg_length: u16 = (body.len() % 65536) as u16;
    let pad: usize = (4 - ((offset + body.len()) % 4)) % 4;
    push_authenticated_region(&mut region, payload_type, sid, seq, msg_length, body, pad);
    proof { crate::bytes::lemma_le16_mod(body@.len() as int); }
    region
}

impl IpmiSession {
    fn build_request_region(&self, netfn: u8, cmd: u8, data: &[u8], iv: &[u8]) -> (region: Vec<u8>)
        requires
            can_frame(*self),
            iv@.len() == 16,
            data@.len() + 128 <= usize::MAX,
        ensures
            region@ == request_region(*self, netfn, cmd, data@, iv@),
            self.confid_algo == CRYPT_AES_CBC_128 ==> {
                let msg = lan_request(netfn, self.ipmi_seq, cmd, data@);
                let k = self.k2@.subrange(0, 16);
                &&& aes128_cbc_encrypt_spec(k, iv@, ipmi_pad_spec(msg)).len() == ipmi_pad_spec(msg).len()
                &&& aes128_cbc_decrypt_spec(k, iv@, aes128_cbc_encrypt_spec(k, iv@, ipmi_pad_spec(msg))) == ipmi_pad_spec(msg)
            },
    {
        let msg = build_lan_request(netfn, self.ipmi_seq, cmd, data);
        let mut payload_type: u8 = 0x00;
        if self.integ_algo != INTEG_NONE {
            payload_type = payload_type + 0x40;
        }
        if self.confid_algo != CRYPT_NONE {
            payload_type = payload_type + 0x80;
        }
        assert(payload_type == session_payload_type(self.integ_algo, self.confid_algo));
        let session_id = self.managed_system_session_id;
        let seq = self.seq_number;
        if self.confid_algo == CRYPT_AES_CBC_128 {
            let body = encrypted_body(self.k2.as_slice(), iv, msg.as_slice());
            region_with_body(payload_type, session_id, seq, body.as_slice(), 18)
        } else {
            region_with_body(payload_type, session_id, seq, msg.as_slice(), 16)
        }
    }

    /// Frames a request with the given 16-byte IV (used only under
    /// AES-CBC-128); both sequence numbers advance whatever comes back.
    #[verifier::spinoff_prover]
    #[verifier::rlimit(40)]
    pub fn prepare_command_with_iv(&mut self, netfn: u8, cmd: u8, data: &[u8], iv: &[u8]) -> (r: IpmiResult<Vec<u8>>)
        requires
            can_frame(*old(self)),
            iv@.len() == 16,
            data@.len() + 128 <= usize::MAX,
        ensures
            *final(self) == advanced(*old(self)),
            match (r, command_packet(*old(self), netfn, cmd, data@, iv@)) {
                (Ok(p), Ok(sp)) => p@ == sp,
                (Err(e), Err(se)) => e == se,
                _ => false,
            },
            r matches Ok(p) ==> (data@.len() + 71 < 65536 && (old(self).confid_algo == CRYPT_NONE
                || (old(self).confid_algo == CRYPT_AES_CBC_128 && data@.len() % 16 != 8)))
                ==> response_result(*old(self), p@) == Some(completion_result(lan_request(netfn, old(self).ipmi_seq, cmd, data@))),
            r matches Ok(p) ==> (old(self).confid_algo == CRYPT_AES_CBC_128 && data@.len() + 71 < 65536) ==> {
                &&& encrypted_request_layout(old(self).k2@, lan_request(netfn, old(self).ipmi_seq, cmd, data@), p@)
                &&& p@.subrange(16, 32) == iv@
            },
            r matches Ok(p) ==> {
                let icl = integrity_code_len_spec(old(self).integ_algo) as int;
                &&& p@.len() >= 16 + icl
                &&& p@.subrange(6, 10) == le32(old(self).managed_system_session_id)
                &&& p@.subrange(10, 14) == le32(old(self).seq_number)
                &&& hmac_spec(old(self).auth_algo, old(self).k1@, p@.subrange(4, p@.len() - icl)) matches Some(full)
                    && p@.subrange(p@.len() - icl, p@.len() as int) == full.subrange(0, icl)
            },
    {
        let ghost s0 = *self;
        let region = self.build_request_region(netfn, cmd, data, iv);
        let seq = self.seq_number;
        let ipmi_seq = self.ipmi_seq;
        self.seq_number = if seq == u32::MAX { 0 } else { seq + 1 };
        self.ipmi_seq = if ipmi_seq == u8::MAX { 0 } else { ipmi_seq + 1 };
        let integrity = hmac_fn(self.auth_algo, self.k1.as_slice(), region.as_slice())?;
        let trunc = slice_subrange(integrity.as_slice(), 0, integrity_code_len(self.integ_algo));
        let mut packet: Vec<u8> = Vec::new();
        packet.push(0xFF);
        packet.push(0x00);
        packet.push(0xFF);
        packet.push(0x07);
        extend_bytes(&mut packet, region.as_slice());
        extend_bytes(&mut packet, trunc);
        assert(packet@ =~= rmcp_header() + region@ + trunc@);
        proof {
            lemma_framed_request_header(s0, netfn, cmd, data@, iv@, integrity@, packet@);
            lemma_framed_request_decodes(s0, netfn, cmd, data@, iv@, integrity@, packet@);
        }
        Ok(packet)
    }

    /// Whether the session can frame requests (AES-CBC-128 needs 16 bytes of K2).
    pub fn can_frame_requests(&self) -> (r: bool)
        ensures
            r == can_frame(*self),
    {
        self.confid_algo != CRYPT_AES_CBC_128 || self.k2.len() >= 16
    }

    /// Frames a request; under AES-CBC-128 the IV is 16 random bytes. Both
    /// sequence numbers advance whatever comes back.
    pub fn prepare_command(&mut self, netfn: u8, cmd: u8, data: &[u8]) -> (r: IpmiResult<Vec<u8>>)
        requires
            can_frame(*old(self)),
            data@.len() + 128 <= usize::MAX,
        ensures
            *final(self) == advanced(*old(self)),
            exists|iv: Seq<u8>| iv.len() == 16 && match (r, #[trigger] command_packet(*old(self), netfn, cmd, data@, iv)) {
                (Ok(p), Ok(sp)) => p@ == sp,
                (Err(e), Err(se)) => e == se,
                _ => false,
            },
            r matches Ok(p) ==> (data@.len() + 71 < 65536 && (old(self).confid_algo == CRYPT_NONE
                || (old(self).confid_algo == CRYPT_AES_CBC_128 && data@.len() % 16 != 8)))
                ==> response_result(*old(self), p@) == Some(completion_result(lan_request(netfn, old(self).ipmi_seq, cmd, data@))),
            r matches Ok(p) ==> (old(self).confid_algo == CRYPT_AES_CBC_128 && data@.len() + 71 < 65536)
                ==> encrypted_request_layout(old(self).k2@, lan_request(netfn, old(self).ipmi_seq, cmd, data@), p@),
            r matches Ok(p) ==> {
                let icl = integrity_code_len_spec(old(self).integ_algo) as int;
                &&& p@.len() >= 16 + icl
                &&& p@.subrange(6, 10) == le32(old(self).managed_system_session_id)
                &&& p@.subrange(10, 14) == le32(old(self).seq_number)
                &&& hmac_spec(old(self).auth_algo, old(self).k1@, p@.subrange(4, p@.len() - icl)) matches Some(full)
                    && p@.subrange(p@.len() - icl, p@.len() as int) == full.subrange(0, icl)
            },
    {
        let iv = random_bytes(16);
        let r = self.prepare_command_with_iv(netfn, cmd, data, iv.as_slice());
        assert(command_packet(*old(self), netfn, cmd, data@, iv@) == command_packet(*old(self), netfn, cmd, data@, iv@));
        r
    }
}


/// The byte view of a result.
pub open spec fn bytes_result_view(r: IpmiResult<Vec<u8>>) -> Result<Seq<u8>, IpmiError> {
    match r {
        Ok(v) => Ok(v@),
        Err(e) => Err(e),
    }
}

/// The byte view of a decoded response (`None` stays `None`).
pub open spec fn response_view(r: Option<IpmiResult<Vec<u8>>>) -> Option<Result<Seq<u8>, IpmiError>> {
    match r {
        Some(x) => Some(bytes_result_view(x)),
        None => None,
    }
}

/// An IPMI response message of three or more bytes ends with its completion
/// code: a non-zero code is an error, a zero code is dropped. Shorter messages
/// are given back whole.
pub open spec fn completion_result(resp: Seq<u8>) -> Result<Seq<u8>, IpmiError> {
    if resp.len() >= 3 {
        if resp.last() != 0 {
            Err(IpmiError::Protocol(ProtocolError::CompletionCode(resp.last())))
        } else {
            Ok(resp.drop_last())
        }
    } else {
        Ok(resp)
    }
}

/// Removing the confidentiality trailer of a decrypted payload: the last byte
/// is the pad length n, which must be 1 to 16 and at most the length; the
/// message is what precedes the n pad bytes and the pad-length byte. `None`
/// when n equals the length, where no message can precede the trailer.
pub open spec fn confidentiality_trailer_result(dec: Seq<u8>) -> Option<Result<Seq<u8>, IpmiError>> {
    let pad_len: int = if dec.len() == 0 { 0 } else { dec.last() as int };
    if pad_len == 0 || pad_len > dec.len() || pad_len > 16 {
        Some(Err(IpmiError::Protocol(ProtocolError::InvalidPadding)))
    } else if pad_len == dec.len() {
        None
    } else {
        Some(Ok(dec.subrange(0, dec.len() - pad_len - 1)))
    }
}

/// What session `s` makes of a received packet `buf`: the response data, or
/// why it is refused. `None` where the packet's own fields point outside it
/// (an encrypted payload shorter than its IV, a plain packet shorter than its
/// integrity code plus the RMCP header, a pad that leaves no message) or where
/// K2 is shorter than an AES key.
pub open spec fn response_result(s: IpmiSession, buf: Seq<u8>) -> Option<Result<Seq<u8>, IpmiError>> {
    let n = buf.len() as int;
    let icl = integrity_code_len_spec(s.integ_algo) as int;
    let end = 16 + msg_len_of(buf);
    if n < 16 {
        Some(Err(IpmiError::InvalidResponse))
    } else if buf[5] & 0x80 != 0 {
        if n < 28 {
            Some(Err(IpmiError::Protocol(ProtocolError::EncryptedResponseTooShort)))
        } else if end > n || 32 > n {
            Some(Err(IpmiError::Protocol(ProtocolError::EncryptedResponseTruncated)))
        } else if end < 32 {
            None
        } else {
            match hmac_spec(s.auth_algo, s.k1@, buf.subrange(4, n - icl)) {
                None => Some(Err(IpmiError::Protocol(ProtocolError::Hmac(HmacError::UnknownAlgorithm(s.auth_algo))))),
                Some(full) => if buf.subrange(n - icl, n) != full.subrange(0, icl) {
                    Some(Err(IpmiError::AuthFailed(AuthFailure::OuterIntegrity)))
                } else if s.k2@.len() < 16 {
                    None
                } else if (end - 32) % 16 != 0 {
                    Some(Err(IpmiError::Protocol(ProtocolError::DecryptionFailed)))
                } else {
                    match confidentiality_trailer_result(aes128_cbc_decrypt_spec(s.k2@.subrange(0, 16),
                        buf.subrange(16, 32), buf.subrange(32, end))) {
                        Some(Ok(resp)) => Some(completion_result(resp)),
                        other => other,
                    }
                },
            }
        }
    } else {
        if end > n {
            Some(Err(IpmiError::Protocol(ProtocolError::ResponseDataTooShort)))
        } else if n - icl < 4 {
            None
        } else {
            match hmac_spec(s.auth_algo, s.k1@, buf.subrange(4, n - icl)) {
                None => Some(Err(IpmiError::Protocol(ProtocolError::Hmac(HmacError::UnknownAlgorithm(s.auth_algo))))),
                Some(full) => if buf.subrange(n - icl, n) != full.subrange(0, icl) {
                    Some(Err(IpmiError::AuthFailed(AuthFailure::Integrity)))
                } else {
                    Some(completion_result(buf.subrange(16, end)))
                },
            }
        }
    }
}

/// Applies the completion-code rule to a response message.
pub fn complete_response(resp: &[u8]) -> (r: IpmiResult<Vec<u8>>)
    ensures
        bytes_result_view(r) == completion_result(resp@),
{
    if resp.len() >= 3 {
        let completion = resp[resp.len() - 1];
        if completion != 0 {
            return Err(IpmiError::Protocol(ProtocolError::CompletionCode(completion)));
        }
        Ok(slice_to_vec(slice_subrange(resp, 0, resp.len() - 1)))
    } else {
        Ok(slice_to_vec(resp))
    }
}

/// Removes the confidentiality trailer of a decrypted payload.
pub fn strip_confidentiality_trailer(decrypted: &[u8]) -> (r: Option<IpmiResult<Vec<u8>>>)
    ensures
        response_view(r) == confidentiality_trailer_result(decrypted@),
{
    let pad_len: usize = if decrypted.len() == 0 { 0 } else { decrypted[decrypted.len() - 1] as usize };
    if pad_len == 0 || pad_len > decrypted.len() || pad_len > 16 {
        return Some(Err(IpmiError::Protocol(ProtocolError::InvalidPadding)));
    }
    if pad_len == decrypted.len() {
        return None;
    }
    Some(Ok(slice_to_vec(slice_subrange(decrypted, 0, decrypted.len() - pad_len - 1))))
}

/// Whether the received integrity code `buf[n-icl..n]` equals the HMAC under
/// `k1` of `buf[4..n-icl]` cut to `icl` bytes; `Err` when the HMAC cannot be computed.
fn integrity_matches(auth: u8, k1: &[u8], buf: &[u8], icl: usize) -> (r: IpmiResult<bool>)
    requires
        icl <= 16,
        icl + 4 <= buf@.len(),
    ensures
        match hmac_spec(auth, k1@, buf@.subrange(4, buf@.len() - icl)) {
            None => r == Err::<bool, IpmiError>(IpmiError::Protocol(ProtocolError::Hmac(HmacError::UnknownAlgorithm(auth)))),
            Some(full) => r == Ok::<bool, IpmiError>(buf@.subrange(buf@.len() - icl, buf@.len() as int) == full.subrange(0, icl as int)),
        },
{
    let n = buf.len();
    let received = slice_subrange(buf, n - icl, n);
    let covered = slice_subrange(buf, 4, n - icl);
    let expected = hmac_fn(auth, k1, covered)?;
    let expected_trunc = slice_subrange(expected.as_slice(), 0, icl);
    Ok(bytes_eq(received, expected_trunc))
}

impl IpmiSession {
    fn decode_encrypted_response(&self, buf: &[u8]) -> (r: Option<IpmiResult<Vec<u8>>>)
        requires
            buf@.len() >= 16,
            buf@[5] & 0x80 != 0,
        ensures
            response_view(r) == response_result(*self, buf@),
    {
        let n = buf.len();
        if n < 28 {
            return Some(Err(IpmiError::Protocol(ProtocolError::EncryptedResponseTooShort)));
        }
        let auth_code_len = integrity_code_len(self.integ_algo);
        let resp_msg_len = read_le16(buf[14], buf[15]) as usize;
        let iv_end: usize = 32;
        let enc_end: usize = iv_end + resp_msg_len - 16;
        if enc_end > n || iv_end > n {
            return Some(Err(IpmiError::Protocol(ProtocolError::EncryptedResponseTruncated)));
        }
        if enc_end < iv_end {
            return None;
        }
        match integrity_matches(self.auth_algo, self.k1.as_slice(), buf, auth_code_len) {
            Err(e) => { return Some(Err(e)); },
            Ok(false) => { return Some(Err(IpmiError::AuthFailed(AuthFailure::OuterIntegrity))); },
            Ok(true) => {},
        }
        if self.k2.len() < 16 {
            return None;
        }
        let aes_key = slice_subrange(self.k2.as_slice(), 0, 16);
        let iv = slice_subrange(buf, 16, iv_end);
        let encrypted = slice_subrange(buf, iv_end, enc_end);
        let decrypted = match cbc_decrypt(aes_key, iv, encrypted) {
            Ok(d) => d,
            Err(e) => { return Some(Err(e)); },
        };
        match strip_confidentiality_trailer(decrypted.as_slice()) {
            Some(Ok(resp)) => Some(complete_response(resp.as_slice())),
            other => other,
        }
    }

    fn decode_plain_response(&self, buf: &[u8]) -> (r: Option<IpmiResult<Vec<u8>>>)
        requires
            buf@.len() >= 16,
            buf@[5] & 0x80 == 0,
        ensures
            response_view(r) == response_result(*self, buf@),
    {
        let n = buf.len();
        let auth_code_len = integrity_code_len(self.integ_algo);
        let resp_msg_len = read_le16(buf[14], buf[15]) as usize;
        let data_start: usize = 16;
        let data_end: usize = data_start + resp_msg_len;
        if data_end > n {
            return Some(Err(IpmiError::Protocol(ProtocolError::ResponseDataTooShort)));
        }
        if n - auth_code_len < 4 {
            return None;
        }
        match integrity_matches(self.auth_algo, self.k1.as_slice(), buf, auth_code_len) {
            Err(e) => Some(Err(e)),
            Ok(false) => Some(Err(IpmiError::AuthFailed(AuthFailure::Integrity))),
            Ok(true) => Some(complete_response(slice_subrange(buf, data_start, data_end))),
        }
    }

    /// Decodes a received packet into the response data of the command.
    /// `None` exactly where the packet's fields point outside it or K2 is
    /// shorter than an AES key (see `response_result`).
    pub fn decode_response(&self, buf: &[u8]) -> (r: Option<IpmiResult<Vec<u8>>>)
        ensures
            response_view(r) == response_result(*self, buf@),
    {
        if buf.len() < 16 {
            return Some(Err(IpmiError::InvalidResponse));
        }
        if (buf[5] & 0x80) != 0 {
            self.decode_encrypted_response(buf)
        } else {
            self.decode_plain_response(buf)
        }
    }
}


/// Removing the confidentiality trailer gives back the padded message,
/// except for a message one byte short of a whole block, whose pad-length
/// byte is 0 and is refused.
pub proof fn lemma_trailer_undoes_pad(data: Seq<u8>)
    requires
        data.len() % 16 != 15,
    ensures
        confidentiality_trailer_result(ipmi_pad_spec(data)) == Some(Ok::<Seq<u8>, IpmiError>(data)),
{
    let p = ipmi_pad_spec(data);
    super::lemma_ipmi_pad_shape(data);
    assert(p.subrange(0, p.len() - p.last() - 1) =~= data);
}

proof fn lemma_plain_decodes(s: IpmiSession, msg: Seq<u8>, full: Seq<u8>)
    requires
        s.confid_algo == CRYPT_NONE,
        msg.len() < 65536,
        hmac_spec(s.auth_algo, s.k1@, authenticated_region(session_payload_type(s.integ_algo, s.confid_algo),
            s.managed_system_session_id, s.seq_number, msg.len() as int, msg, trailer_pad_len((16 + msg.len()) as int))) == Some(full),
        full.len() >= integrity_code_len_spec(s.integ_algo),
    ensures
        response_result(s, rmcp_header() + authenticated_region(session_payload_type(s.integ_algo, s.confid_algo),
            s.managed_system_session_id, s.seq_number, msg.len() as int, msg, trailer_pad_len((16 + msg.len()) as int))
            + full.subrange(0, integrity_code_len_spec(s.integ_algo) as int))
            == Some(completion_result(msg)),
{
    let pt = session_payload_type(s.integ_algo, s.confid_algo);
    let region = authenticated_region(pt, s.managed_system_session_id, s.seq_number, msg.len() as int, msg,
        trailer_pad_len((16 + msg.len()) as int));
    let icl = integrity_code_len_spec(s.integ_algo) as int;
    let tag = full.subrange(0, icl);
    let p = rmcp_header() + region + tag;
    let n = p.len() as int;
    assert(p.subrange(4, n - icl) =~= region);
    assert(p.subrange(n - icl, n) =~= tag);
    assert(p[5] == pt);
    assert(pt == 0 || pt == 0x40);
    assert((0u8 & 0x80) == 0u8 && (0x40u8 & 0x80) == 0u8) by (bit_vector);
    let x = msg.len() as u16;
    crate::bytes::lemma_le16_roundtrip(x);
    assert(p[14] == le16(x as int)[0] && p[15] == le16(x as int)[1]);
    assert(msg_len_of(p) == msg.len());
    assert(p.subrange(16, 16 + msg.len() as int) =~= msg);
}

proof fn lemma_framed_request_header(s: IpmiSession, netfn: u8, cmd: u8, data: Seq<u8>, iv: Seq<u8>, full: Seq<u8>, p: Seq<u8>)
    requires
        hmac_spec(s.auth_algo, s.k1@, request_region(s, netfn, cmd, data, iv)) == Some(full),
        full.len() >= integrity_code_len_spec(s.integ_algo),
        p == rmcp_header() + request_region(s, netfn, cmd, data, iv) + full.subrange(0, integrity_code_len_spec(s.integ_algo) as int),
    ensures
        ({
            let icl = integrity_code_len_spec(s.integ_algo) as int;
            &&& p.len() >= 16 + icl
            &&& p.subrange(6, 10) == le32(s.managed_system_session_id)
            &&& p.subrange(10, 14) == le32(s.seq_number)
            &&& hmac_spec(s.auth_algo, s.k1@, p.subrange(4, p.len() - icl)) matches Some(f)
                && p.subrange(p.len() - icl, p.len() as int) == f.subrange(0, icl)
        }),
{
    law_request_session_fields(s, netfn, cmd, data, iv);
    lemma_tag_covers(p, request_region(s, netfn, cmd, data, iv), full, integrity_code_len_spec(s.integ_algo) as int);
}

#[verifier::spinoff_prover]
#[verifier::rlimit(80)]
proof fn lemma_framed_request_decodes(s: IpmiSession, netfn: u8, cmd: u8, data: Seq<u8>, iv: Seq<u8>, full: Seq<u8>, p: Seq<u8>)
    requires
        iv.len() == 16,
        can_frame(s),
        hmac_spec(s.auth_algo, s.k1@, request_region(s, netfn, cmd, data, iv)) == Some(full),
        full.len() >= integrity_code_len_spec(s.integ_algo),
        p == rmcp_header() + request_region(s, netfn, cmd, data, iv) + full.subrange(0, integrity_code_len_spec(s.integ_algo) as int),
        s.confid_algo == CRYPT_AES_CBC_128 ==> {
            let msg = lan_request(netfn, s.ipmi_seq, cmd, data);
            let k = s.k2@.subrange(0, 16);
            &&& aes128_cbc_encrypt_spec(k, iv, ipmi_pad_spec(msg)).len() == ipmi_pad_spec(msg).len()
            &&& aes128_cbc_decrypt_spec(k, iv, aes128_cbc_encrypt_spec(k, iv, ipmi_pad_spec(msg))) == ipmi_pad_spec(msg)
        },
    ensures
        (data.len() + 71 < 65536 && (s.confid_algo == CRYPT_NONE
            || (s.confid_algo == CRYPT_AES_CBC_128 && data.len() % 16 != 8)))
            ==> response_result(s, p) == Some(completion_result(lan_request(netfn, s.ipmi_seq, cmd, data))),
        (s.confid_algo == CRYPT_AES_CBC_128 && data.len() + 71 < 65536) ==> {
            &&& encrypted_request_layout(s.k2@, lan_request(netfn, s.ipmi_seq, cmd, data), p)
            &&& p.subrange(16, 32) == iv
        },
{
    let msg = lan_request(netfn, s.ipmi_seq, cmd, data);
    if data.len() + 71 < 65536 {
        if s.confid_algo == CRYPT_NONE {
            lemma_plain_decodes(s, msg, full);
        } else if s.confid_algo == CRYPT_AES_CBC_128 {
            lemma_encrypted_layout(s, msg, iv, full);
            if data.len() % 16 != 8 {
                lemma_encrypted_decodes(s, msg, iv, full);
            }
        }
    }
}

proof fn lemma_tag_covers(p: Seq<u8>, region: Seq<u8>, full: Seq<u8>, icl: int)
    requires
        0 <= icl <= full.len(),
        region.len() >= 12,
        p == rmcp_header() + region + full.subrange(0, icl),
    ensures
        p.len() >= 16 + icl,
        p.subrange(4, p.len() - icl) == region,
        p.subrange(p.len() - icl, p.len() as int) == full.subrange(0, icl),
{
    assert(p.subrange(4, p.len() - icl) =~= region);
    assert(p.subrange(p.len() - icl, p.len() as int) =~= full.subrange(0, icl));
}

proof fn lemma_encrypted_layout(s: IpmiSession, msg: Seq<u8>, iv: Seq<u8>, full: Seq<u8>)
    requires
        s.confid_algo == CRYPT_AES_CBC_128,
        msg.len() + 64 < 65536,
        s.k2@.len() >= 16,
        iv.len() == 16,
        aes128_cbc_encrypt_spec(s.k2@.subrange(0, 16), iv, ipmi_pad_spec(msg)).len() == ipmi_pad_spec(msg).len(),
        aes128_cbc_decrypt_spec(s.k2@.subrange(0, 16), iv, aes128_cbc_encrypt_spec(s.k2@.subrange(0, 16), iv, ipmi_pad_spec(msg)))
            == ipmi_pad_spec(msg),
        full.len() >= integrity_code_len_spec(s.integ_algo),
    ensures
        ({
            let body = iv + aes128_cbc_encrypt_spec(s.k2@.subrange(0, 16), iv, ipmi_pad_spec(msg));
            let p = rmcp_header() + authenticated_region(session_payload_type(s.integ_algo, s.confid_algo),
                s.managed_system_session_id, s.seq_number, body.len() as int, body,
                trailer_pad_len((18 + body.len()) as int))
                + full.subrange(0, integrity_code_len_spec(s.integ_algo) as int);
            &&& encrypted_request_layout(s.k2@, msg, p)
            &&& p.subrange(16, 32) == iv
        }),
{
    let k = s.k2@.subrange(0, 16);
    let padded = ipmi_pad_spec(msg);
    let enc = aes128_cbc_encrypt_spec(k, iv, padded);
    let body = iv + enc;
    let pt = session_payload_type(s.integ_algo, s.confid_algo);
    let region = authenticated_region(pt, s.managed_system_session_id, s.seq_number, body.len() as int, body,
        trailer_pad_len((18 + body.len()) as int));
    let icl = integrity_code_len_spec(s.integ_algo) as int;
    let p = rmcp_header() + region + full.subrange(0, icl);
    super::lemma_ipmi_pad_shape(msg);
    assert(p[5] == pt);
    assert(pt == 0x80 || pt == 0xC0);
    assert((0x80u8 & 0x80) != 0u8 && (0xC0u8 & 0x80) != 0u8) by (bit_vector);
    let x = body.len() as u16;
    crate::bytes::lemma_le16_roundtrip(x);
    assert(p[14] == le16(x as int)[0] && p[15] == le16(x as int)[1]);
    assert(msg_len_of(p) == body.len());
    assert(p.subrange(16, 32) =~= iv);
    assert(p.subrange(32, 16 + body.len() as int) =~= enc);
}

proof fn lemma_encrypted_decodes(s: IpmiSession, msg: Seq<u8>, iv: Seq<u8>, full: Seq<u8>)
    requires
        s.confid_algo == CRYPT_AES_CBC_128,
        msg.len() % 16 != 15,
        msg.len() + 64 < 65536,
        s.k2@.len() >= 16,
        iv.len() == 16,
        aes128_cbc_encrypt_spec(s.k2@.subrange(0, 16), iv, ipmi_pad_spec(msg)).len() == ipmi_pad_spec(msg).len(),
        aes128_cbc_decrypt_spec(s.k2@.subrange(0, 16), iv, aes128_cbc_encrypt_spec(s.k2@.subrange(0, 16), iv, ipmi_pad_spec(msg)))
            == ipmi_pad_spec(msg),
        hmac_spec(s.auth_algo, s.k1@, authenticated_region(session_payload_type(s.integ_algo, s.confid_algo),
            s.managed_system_session_id, s.seq_number,
            (iv + aes128_cbc_encrypt_spec(s.k2@.subrange(0, 16), iv, ipmi_pad_spec(msg))).len() as int,
            iv + aes128_cbc_encrypt_spec(s.k2@.subrange(0, 16), iv, ipmi_pad_spec(msg)),
            trailer_pad_len((18 + (iv + aes128_cbc_encrypt_spec(s.k2@.subrange(0, 16), iv, ipmi_pad_spec(msg))).len()) as int))) == Some(full),
        full.len() >= integrity_code_len_spec(s.integ_algo),
    ensures
        response_result(s, rmcp_header() + authenticated_region(session_payload_type(s.integ_algo, s.confid_algo),
            s.managed_system_session_id, s.seq_number,
            (iv + aes128_cbc_encrypt_spec(s.k2@.subrange(0, 16), iv, ipmi_pad_spec(msg))).len() as int,
            iv + aes128_cbc_encrypt_spec(s.k2@.subrange(0, 16), iv, ipmi_pad_spec(msg)),
            trailer_pad_len((18 + (iv + aes128_cbc_encrypt_spec(s.k2@.subrange(0, 16), iv, ipmi_pad_spec(msg))).len()) as int))
            + full.subrange(0, integrity_code_len_spec(s.integ_algo) as int))
            == Some(completion_result(msg)),
{
    let k = s.k2@.subrange(0, 16);
    let padded = ipmi_pad_spec(msg);
    let enc = aes128_cbc_encrypt_spec(k, iv, padded);
    let body = iv + enc;
    let pt = session_payload_type(s.integ_algo, s.confid_algo);
    let region = authenticated_region(pt, s.managed_system_session_id, s.seq_number, body.len() as int, body,
        trailer_pad_len((18 + body.len()) as int));
    let icl = integrity_code_len_spec(s.integ_algo) as int;
    let tag = full.subrange(0, icl);
    let p = rmcp_header() + region + tag;
    let n = p.len() as int;
    super::lemma_ipmi_pad_shape(msg);
    assert(p.subrange(4, n - icl) =~= region);
    assert(p.subrange(n - icl, n) =~= tag);
    assert(p[5] == pt);
    assert(pt == 0x80 || pt == 0xC0);
    assert((0x80u8 & 0x80) != 0u8 && (0xC0u8 & 0x80) != 0u8) by (bit_vector);
    let x = body.len() as u16;
    crate::bytes::lemma_le16_roundtrip(x);
    assert(p[14] == le16(x as int)[0] && p[15] == le16(x as int)[1]);
    assert(msg_len_of(p) == body.len());
    assert(p.subrange(16, 32) =~= iv);
    assert(p.subrange(32, 16 + body.len() as int) =~= enc);
    lemma_trailer_undoes_pad(msg);
}


/// The layout of an IPMI LAN request: responder address 0x20, the network
/// function over LUN 0, a checksum that zeroes the sum of those three bytes;
/// then requester address 0x81, the request sequence number (its low 6 bits)
/// over LUN 0, the command, the data, and a checksum that zeroes the sum of
/// that second part.
pub proof fn law_lan_request(netfn: u8, ipmi_seq: u8, cmd: u8, data: Seq<u8>)
    ensures
        ({
            let m = lan_request(netfn, ipmi_seq, cmd, data);
            &&& m.len() == data.len() + 7
            &&& m[0] == 0x20u8
            &&& m[1] as int == (netfn as int * 4) % 256
            &&& byte_sum(m.subrange(0, 3)) % 256 == 0
            &&& m[3] == 0x81u8
            &&& m[4] as int == (ipmi_seq as int % 64) * 4
            &&& m[5] == cmd
            &&& m.subrange(6, 6 + data.len() as int) == data
            &&& byte_sum(m.subrange(3, m.len() as int)) % 256 == 0
        }),
{
    let h = lan_request_head(netfn);
    let b = lan_request_body(ipmi_seq, cmd, data);
    let m = lan_request(netfn, ipmi_seq, cmd, data);
    lemma_checksum_zeroes_sum(h);
    lemma_checksum_zeroes_sum(b);
    assert(m.subrange(0, 3) =~= h.push(checksum_spec(h)));
    assert(m.subrange(3, m.len() as int) =~= b.push(checksum_spec(b)));
    assert(m.subrange(6, 6 + data.len() as int) =~= data);
}

/// A new session proposes RAKP-HMAC-SHA1 (0x01), HMAC-SHA1-96 (0x01) and
/// AES-CBC-128 (0x01), asks for the Administrator privilege (0x04), has no
/// BMC session ID, counters or keys yet, and keeps the connection details it
/// was given (the password as its UTF-8 bytes).
pub proof fn law_fresh_session(s: IpmiSession, host: Seq<char>, port: u16, username: Seq<char>, password: Seq<char>, id: u32)
    requires
        fresh_session(s, host, port, username, password, id),
    ensures
        s.auth_algo == 0x01 && s.integ_algo == 0x01 && s.confid_algo == 0x01,
        s.priv_level == 0x04,
        s.managed_system_session_id == 0 && s.initiator_session_id == id,
        s.seq_number == 0 && s.ipmi_seq == 0,
        s.sik@.len() == 0 && s.k1@.len() == 0 && s.k2@.len() == 0,
        !s.active(),
        s.host@ == host && s.port == port && s.username@ == username,
        s.password@ == encode_utf8(password),
{
}

/// One request moves the session sequence number and the request sequence
/// number one step forward (from the largest value back to 0) and changes
/// nothing else.
pub proof fn law_advanced(s: IpmiSession)
    ensures
        advanced(s).seq_number as int == (s.seq_number as int + 1) % 0x1_0000_0000,
        advanced(s).ipmi_seq as int == (s.ipmi_seq as int + 1) % 256,
        advanced(s).managed_system_session_id == s.managed_system_session_id,
        advanced(s).k1 == s.k1 && advanced(s).k2 == s.k2 && advanced(s).sik == s.sik,
        advanced(s).auth_algo == s.auth_algo && advanced(s).integ_algo == s.integ_algo
            && advanced(s).confid_algo == s.confid_algo,
{
}

/// The completion code is the last byte of a response of three or more
/// bytes: a non-zero code is that error; a zero code gives the bytes before it.
/// Shorter responses are given back whole.
pub proof fn law_completion(resp: Seq<u8>)
    ensures
        resp.len() >= 3 && resp[resp.len() - 1] != 0 ==>
            completion_result(resp) == Err::<Seq<u8>, IpmiError>(IpmiError::Protocol(ProtocolError::CompletionCode(resp[resp.len() - 1]))),
        resp.len() >= 3 && resp[resp.len() - 1] == 0 ==>
            completion_result(resp) == Ok::<Seq<u8>, IpmiError>(resp.subrange(0, resp.len() - 1)),
        resp.len() < 3 ==> completion_result(resp) == Ok::<Seq<u8>, IpmiError>(resp),
{
    if resp.len() >= 3 {
        assert(resp.drop_last() =~= resp.subrange(0, resp.len() - 1));
    }
}

/// A response is judged with the session's keys: a packet shorter than 16
/// bytes is invalid, and a packet whose integrity code (its last bytes, as
/// long as the integrity algorithm's code) differs from the HMAC under K1 of
/// bytes 4 up to that code is refused as unauthenticated.
pub proof fn law_response_authenticated(s: IpmiSession, buf: Seq<u8>)
    ensures
        buf.len() < 16 ==> response_result(s, buf) == Some(Err::<Seq<u8>, IpmiError>(IpmiError::InvalidResponse)),
        ({
            let n = buf.len() as int;
            let icl = integrity_code_len_spec(s.integ_algo) as int;
            response_result(s, buf) matches Some(Ok(_)) ==>
                hmac_spec(s.auth_algo, s.k1@, buf.subrange(4, n - icl)) matches Some(full)
                && buf.subrange(n - icl, n) == full.subrange(0, icl)
        }),
{
}

} // verus!
