//! IPMI 2.0 over RMCP+: algorithm identifiers, errors, session-key derivation,
//! the confidentiality pad and the message checksum.

use vstd::prelude::*;
use vstd::slice::{slice_subrange, slice_to_vec};
use crate::bytes::{repeat_byte, extend_bytes, push_repeated};
use vstd::string::StringSliceAdditionalSpecFns;
use crate::crypto::{hmac_md5, hmac_sha1, hmac_sha256, hmac_md5_spec, hmac_sha1_spec, hmac_sha256_spec};
use crate::crypto::{aes128_cbc_encrypt, aes128_cbc_decrypt, aes128_cbc_encrypt_spec, aes128_cbc_decrypt_spec, CipherFailure};

pub mod packet;
pub mod session;
pub mod sol;

pub use session::IpmiSession;

verus! {

/// The UDP port of RMCP+.
pub const IPMI_PORT: u16 = 623;

/// Authentication algorithm: none.
pub const AUTH_NONE: u8 = 0x00;
/// Authentication algorithm: RAKP-HMAC-SHA1.
pub const AUTH_SHA1: u8 = 0x01;
/// Authentication algorithm: RAKP-HMAC-MD5.
pub const AUTH_MD5: u8 = 0x02;
/// Authentication algorithm: RAKP-HMAC-SHA256.
pub const AUTH_SHA256: u8 = 0x03;

/// Integrity algorithm: none.
pub const INTEG_NONE: u8 = 0x00;
/// Integrity algorithm: HMAC-SHA1-96.
pub const INTEG_SHA1_96: u8 = 0x01;
/// Integrity algorithm: HMAC-MD5-128.
pub const INTEG_MD5_128: u8 = 0x02;
/// Integrity algorithm: MD5-128.
pub const INTEG_MD5_LEGACY: u8 = 0x03;
/// Integrity algorithm: HMAC-SHA256-128.
pub const INTEG_SHA256_128: u8 = 0x04;

/// Confidentiality algorithm: none.
pub const CRYPT_NONE: u8 = 0x00;
/// Confidentiality algorithm: AES-CBC-128.
pub const CRYPT_AES_CBC_128: u8 = 0x01;

/// Length of the buffer the password is padded to before it keys an HMAC.
pub const IPMI_AUTHCODE_BUFFER_SIZE: usize = 20;

/// Payload type of an Open Session Request.
pub const PAYLOAD_OPEN_SESSION_REQ: u8 = 0x10;
/// Payload type of an Open Session Response.
pub const PAYLOAD_OPEN_SESSION_RSP: u8 = 0x11;
/// Payload type of RAKP Message 1.
pub const PAYLOAD_RAKP_M1: u8 = 0x12;
/// Payload type of RAKP Message 2.
pub const PAYLOAD_RAKP_M2: u8 = 0x13;
/// Payload type of RAKP Message 3.
pub const PAYLOAD_RAKP_M3: u8 = 0x14;
/// Payload type of RAKP Message 4.
pub const PAYLOAD_RAKP_M4: u8 = 0x15;

/// Why an HMAC could not be computed.
#[derive(Debug, Clone, Copy, PartialEq, Eq)]
pub enum HmacError {
    /// The authentication algorithm is none of MD5, SHA-1, SHA-256.
    UnknownAlgorithm(u8),
    /// The HMAC refused its key.
    InvalidKey,
}

/// A protocol-level failure, with the values that explain it.
#[derive(Debug, Clone, Copy, PartialEq, Eq)]
pub enum ProtocolError {
    /// An HMAC could not be computed.
    Hmac(HmacError),
    /// The AES key or IV has the wrong length.
    InvalidKeyOrIv,
    /// The data to encrypt is not a whole number of AES blocks.
    EncryptionPadding,
    /// The data to decrypt is not a whole number of AES blocks.
    DecryptionFailed,
    /// An Open Session Response shorter than its fixed header (its length).
    ResponseTooShort(usize),
    /// Not an Open Session Response (the payload type found).
    NotOpenSessionResponse(u8),
    /// An Open Session Response whose message length is zero.
    MsgLenTooSmall(usize),
    /// The BMC refused the session (status and message length).
    OpenSessionFailed(u8, usize),
    /// A successful Open Session Response shorter than 36 bytes (its message length).
    OpenSessionMsgLenTooSmall(usize),
    /// A RAKP Message 2 shorter than 56 bytes (its length).
    Rakp2TooShort(usize),
    /// Not a RAKP Message 2 (the payload type found).
    NotRakp2(u8),
    /// A RAKP Message 2 whose message length is zero.
    Rakp2MsgLenZero,
    /// The BMC refused RAKP Message 1 (its status).
    Rakp2Failed(u8),
    /// Not a RAKP Message 4 (the payload type found).
    NotRakp4(u8),
    /// A RAKP Message 4 whose message length is under 8.
    Rakp4MsgLenTooSmall(usize),
    /// The BMC refused RAKP Message 3 (its status).
    Rakp4Failed(u8),
    /// A RAKP Message 4 too short for its integrity check value
    /// (bytes needed, offset, packet length).
    Rakp4TooShortForIcv(usize, usize, usize),
    /// The HMAC that checks RAKP Message 4 could not be computed.
    Rakp4Hmac(HmacError),
    /// The integrity check value of RAKP Message 4 does not match.
    Rakp4IcvMismatch,
    /// An encrypted response shorter than 28 bytes.
    EncryptedResponseTooShort,
    /// An encrypted response whose message length runs past its end.
    EncryptedResponseTruncated,
    /// The confidentiality trailer of a decrypted response is malformed.
    InvalidPadding,
    /// The command completed with a non-zero completion code.
    CompletionCode(u8),
    /// A plain response whose message length runs past its end.
    ResponseDataTooShort,
    /// A Serial-over-LAN payload shorter than 10 bytes.
    SolPayloadTooShort,
}

/// Why the library refused to authenticate a response.
#[derive(Debug, Clone, Copy, PartialEq, Eq)]
pub enum AuthFailure {
    /// The integrity code of an encrypted response does not match.
    OuterIntegrity,
    /// The integrity code of a plain response does not match.
    Integrity,
}

/// Why a session-level operation could not start.
#[derive(Debug, Clone, Copy, PartialEq, Eq)]
pub enum SessionFailure {
    /// No socket is open.
    NotConnected,
    /// No session is established.
    NoSession,
}

/// The errors of the IPMI layer.
#[derive(Debug, Clone, Copy, PartialEq, Eq)]
pub enum IpmiError {
    /// Authentication of a message failed.
    AuthFailed(AuthFailure),
    /// No session to work in.
    Session(SessionFailure),
    /// The protocol was broken.
    Protocol(ProtocolError),
    /// No answer came in time.
    Timeout,
    /// The answer is too short to be an RMCP+ message.
    InvalidResponse,
}

/// Result of the IPMI layer.
pub type IpmiResult<T> = Result<T, IpmiError>;

/// The HMAC of the authentication algorithm `auth`, if it is one the library knows.
pub open spec fn hmac_spec(auth: u8, key: Seq<u8>, data: Seq<u8>) -> Option<Seq<u8>> {
    if auth == AUTH_MD5 {
        Some(hmac_md5_spec(key, data))
    } else if auth == AUTH_SHA1 {
        Some(hmac_sha1_spec(key, data))
    } else if auth == AUTH_SHA256 {
        Some(hmac_sha256_spec(key, data))
    } else {
        None
    }
}

/// Whether `auth` is an authentication algorithm with an HMAC.
pub open spec fn known_auth(auth: u8) -> bool {
    auth == AUTH_MD5 || auth == AUTH_SHA1 || auth == AUTH_SHA256
}

/// Whether `auth` is an authentication algorithm with an HMAC.
pub fn is_known_auth(auth: u8) -> (r: bool)
    ensures
        r == known_auth(auth),
{
    auth == AUTH_MD5 || auth == AUTH_SHA1 || auth == AUTH_SHA256
}

/// Digest length of the HMAC of `auth` (0 when unknown).
pub open spec fn digest_len_spec(auth: u8) -> nat {
    if auth == AUTH_MD5 {
        16
    } else if auth == AUTH_SHA1 {
        20
    } else if auth == AUTH_SHA256 {
        32
    } else {
        0
    }
}

/// Length of the integrity code of `integ` (0 when none or unknown).
pub open spec fn integrity_code_len_spec(integ: u8) -> nat {
    if integ == INTEG_SHA1_96 {
        12
    } else if integ == INTEG_MD5_128 || integ == INTEG_MD5_LEGACY || integ == INTEG_SHA256_128 {
        16
    } else {
        0
    }
}

/// The HMAC of `auth` over `data` under `key`.
pub fn hmac_fn(auth: u8, key: &[u8], data: &[u8]) -> (r: IpmiResult<Vec<u8>>)
    ensures
        r is Ok <==> known_auth(auth),
        r matches Ok(d) ==> hmac_spec(auth, key@, data@) == Some(d@),
        r matches Ok(d) ==> d@.len() == digest_len_spec(auth),
        r matches Err(e) ==> e == IpmiError::Protocol(ProtocolError::Hmac(HmacError::UnknownAlgorithm(auth))),
{
    let out = if auth == AUTH_MD5 {
        hmac_md5(key, data)
    } else if auth == AUTH_SHA1 {
        hmac_sha1(key, data)
    } else if auth == AUTH_SHA256 {
        hmac_sha256(key, data)
    } else {
        return Err(IpmiError::Protocol(ProtocolError::Hmac(HmacError::UnknownAlgorithm(auth))));
    };
    match out {
        Some(d) => Ok(d),
        None => Err(IpmiError::Protocol(ProtocolError::Hmac(HmacError::InvalidKey))),
    }
}

/// Digest length of the HMAC of `auth`: 16 for MD5, 20 for SHA-1, 32 for SHA-256, else 0.
pub fn hmac_digest_len(auth: u8) -> (r: usize)
    ensures
        r == digest_len_spec(auth),
{
    if auth == AUTH_MD5 {
        16
    } else if auth == AUTH_SHA1 {
        20
    } else if auth == AUTH_SHA256 {
        32
    } else {
        0
    }
}

/// Length of the integrity check value in RAKP Message 3: the full HMAC digest.
pub fn rakp_icv_len(auth: u8) -> (r: usize)
    ensures
        r == digest_len_spec(auth),
{
    hmac_digest_len(auth)
}

/// Length of the session integrity code: 12 for SHA1-96, 16 for the MD5 and
/// SHA256-128 algorithms, else 0.
pub fn integrity_code_len(integ: u8) -> (r: usize)
    ensures
        r == integrity_code_len_spec(integ),
{
    if integ == INTEG_SHA1_96 {
        12
    } else if integ == INTEG_MD5_128 || integ == INTEG_MD5_LEGACY || integ == INTEG_SHA256_128 {
        16
    } else {
        0
    }
}

/// The password as an HMAC key: its first 20 bytes, padded with zeros to 20.
pub open spec fn pad_key_spec(password: Seq<u8>) -> Seq<u8> {
    if password.len() >= 20 {
        password.subrange(0, 20)
    } else {
        password + repeat_byte(0, (20 - password.len()) as nat)
    }
}

/// Pads or cuts the password to the 20-byte key buffer.
pub fn pad_key(password: &[u8]) -> (key: Vec<u8>)
    ensures
        key@ == pad_key_spec(password@),
        key@.len() == 20,
{
    let len: usize = if password.len() < IPMI_AUTHCODE_BUFFER_SIZE {
        password.len()
    } else {
        IPMI_AUTHCODE_BUFFER_SIZE
    };
    let mut key: Vec<u8> = Vec::new();
    extend_bytes(&mut key, slice_subrange(password, 0, len));
    push_repeated(&mut key, 0, IPMI_AUTHCODE_BUFFER_SIZE - len);
    proof {
        if password@.len() >= 20 {
            assert(repeat_byte(0, 0) =~= Seq::<u8>::empty());
            assert(key@ =~= password@.subrange(0, 20));
        } else {
            assert(password@.subrange(0, len as int) =~= password@);
        }
    }
    key
}

/// The sum of the bytes of `s`, as an integer.
pub open spec fn byte_sum(s: Seq<u8>) -> int
    decreases s.len(),
{
    if s.len() == 0 {
        0
    } else {
        byte_sum(s.drop_last()) + s.last()
    }
}

/// The two's-complement checksum: the byte that brings the sum to 0 modulo 256.
pub open spec fn checksum_spec(s: Seq<u8>) -> u8 {
    ((256 - byte_sum(s) % 256) % 256) as u8
}

/// Two's-complement checksum of an IPMI message section.
pub fn checksum(data: &[u8]) -> (r: u8)
    ensures
        r == checksum_spec(data@),
{
    let mut acc: u8 = 0;
    let mut i: usize = 0;
    while i < data.len()
        invariant
            i <= data@.len(),
            acc == byte_sum(data@.subrange(0, i as int)) % 256,
        decreases data@.len() - i,
    {
        assert(data@.subrange(0, (i + 1) as int).drop_last() =~= data@.subrange(0, i as int));
        acc = ((acc as u16 + data[i] as u16) % 256) as u8;
        i = i + 1;
    }
    assert(data@.subrange(0, data@.len() as int) =~= data@);
    ((256 - acc as u16) % 256) as u8
}

/// Appending its checksum brings a section's byte sum to 0 modulo 256.
pub proof fn lemma_checksum_zeroes_sum(data: Seq<u8>)
    ensures
        byte_sum(data.push(checksum_spec(data))) % 256 == 0,
{
    assert(data.push(checksum_spec(data)).drop_last() =~= data);
}

/// The confidentiality pad: the data, then the bytes 1, 2, .., n-1, then n-1,
/// where n = 16 - len % 16 (so 1 to 16 bytes are added).
pub open spec fn ipmi_pad_spec(data: Seq<u8>) -> Seq<u8> {
    let pad_len = 16 - data.len() % 16;
    data + Seq::new((pad_len - 1) as nat, |i: int| (i + 1) as u8) + seq![(pad_len - 1) as u8]
}

/// Pads a message to a whole number of AES blocks with incrementing bytes
/// and a trailing pad-length byte.
pub fn ipmi_pad(data: &[u8]) -> (padded: Vec<u8>)
    ensures
        padded@ == ipmi_pad_spec(data@),
{
    let pad_len: usize = 16 - (data.len() % 16);
    let mut padded: Vec<u8> = slice_to_vec(data);
    let mut i: usize = 0;
    while i < pad_len - 1
        invariant
            1 <= pad_len <= 16,
            i <= pad_len - 1,
            padded@ == data@ + Seq::new(i as nat, |k: int| (k + 1) as u8),
        decreases pad_len - 1 - i,
    {
        padded.push((i + 1) as u8);
        i = i + 1;
        assert(padded@ =~= data@ + Seq::new(i as nat, |k: int| (k + 1) as u8));
    }
    padded.push((pad_len - 1) as u8);
    padded
}

/// The padded message is whole AES blocks, longer than the message, begins
/// with the message, and its last byte tells how many pad bytes precede it.
pub proof fn lemma_ipmi_pad_shape(data: Seq<u8>)
    ensures
        ipmi_pad_spec(data).len() % 16 == 0,
        data.len() < ipmi_pad_spec(data).len() <= data.len() + 16,
        ipmi_pad_spec(data).subrange(0, data.len() as int) == data,
        data.len() + ipmi_pad_spec(data).last() + 1 == ipmi_pad_spec(data).len(),
{
    let p = ipmi_pad_spec(data);
    assert(p.subrange(0, data.len() as int) =~= data);
}

/// Whether AES-128-CBC accepts this key, IV and data.
pub open spec fn cbc_accepts(key: Seq<u8>, iv: Seq<u8>, data: Seq<u8>) -> bool {
    key.len() == 16 && iv.len() == 16 && data.len() % 16 == 0
}

/// AES-128-CBC encryption of whole blocks (no padding is added).
pub fn aes_cbc_encrypt(key: &[u8], iv: &[u8], data: &[u8]) -> (r: IpmiResult<Vec<u8>>)
    ensures
        r is Ok <==> cbc_accepts(key@, iv@, data@),
        r matches Ok(c) ==> c@ == aes128_cbc_encrypt_spec(key@, iv@, data@) && c@.len() == data@.len(),
        r matches Ok(c) ==> aes128_cbc_decrypt_spec(key@, iv@, c@) == data@,
        r matches Err(e) ==> e == (if key@.len() == 16 && iv@.len() == 16 {
            IpmiError::Protocol(ProtocolError::EncryptionPadding)
        } else {
            IpmiError::Protocol(ProtocolError::InvalidKeyOrIv)
        }),
{
    match aes128_cbc_encrypt(key, iv, data) {
        Ok(c) => Ok(c),
        Err(CipherFailure::KeyOrIvLength) => Err(IpmiError::Protocol(ProtocolError::InvalidKeyOrIv)),
        Err(CipherFailure::BlockAlignment) => Err(IpmiError::Protocol(ProtocolError::EncryptionPadding)),
    }
}

/// AES-128-CBC decryption of whole blocks; the padding is left in place.
pub fn cbc_decrypt(key: &[u8], iv: &[u8], data: &[u8]) -> (r: IpmiResult<Vec<u8>>)
    ensures
        r is Ok <==> cbc_accepts(key@, iv@, data@),
        r matches Ok(p) ==> p@ == aes128_cbc_decrypt_spec(key@, iv@, data@) && p@.len() == data@.len(),
        r matches Err(e) ==> e == (if key@.len() == 16 && iv@.len() == 16 {
            IpmiError::Protocol(ProtocolError::DecryptionFailed)
        } else {
            IpmiError::Protocol(ProtocolError::InvalidKeyOrIv)
        }),
{
    match aes128_cbc_decrypt(key, iv, data) {
        Ok(p) => Ok(p),
        Err(CipherFailure::KeyOrIvLength) => Err(IpmiError::Protocol(ProtocolError::InvalidKeyOrIv)),
        Err(CipherFailure::BlockAlignment) => Err(IpmiError::Protocol(ProtocolError::DecryptionFailed)),
    }
}

/// The message keyed by the password to give the session integrity key:
/// Random_A || Random_B || privilege || user-name length || user name.
pub open spec fn sik_input(random_a: Seq<u8>, random_b: Seq<u8>, priv_level: u8, username: Seq<u8>) -> Seq<u8> {
    random_a + random_b + seq![priv_level, (username.len() % 256) as u8] + username
}

/// The constant that the session integrity key is applied to for K1 (0x01) or K2 (0x02).
pub open spec fn key_constant(b: u8) -> Seq<u8> {
    repeat_byte(b, 20)
}

/// Session Integrity Key: HMAC under the padded password of
/// Random_A || Random_B || privilege || user-name length || user name.
pub fn derive_sik(
    auth: u8,
    password: &[u8],
    random_a: &[u8],
    random_b: &[u8],
    priv_level: u8,
    username: &str,
) -> (r: IpmiResult<Vec<u8>>)
    ensures
        r is Ok <==> known_auth(auth),
        r matches Ok(s) ==> hmac_spec(auth, pad_key_spec(password@),
            sik_input(random_a@, random_b@, priv_level, username.spec_bytes())) == Some(s@),
        r matches Ok(s) ==> s@.len() == digest_len_spec(auth),
        r matches Err(e) ==> e == IpmiError::Protocol(ProtocolError::Hmac(HmacError::UnknownAlgorithm(auth))),
{
    let padded_key = pad_key(password);
    let name = username.as_bytes();
    let mut input: Vec<u8> = Vec::new();
    extend_bytes(&mut input, random_a);
    extend_bytes(&mut input, random_b);
    input.push(priv_level);
    input.push((name.len() % 256) as u8);
    extend_bytes(&mut input, name);
    assert(input@ =~= sik_input(random_a@, random_b@, priv_level, username.spec_bytes()));
    hmac_fn(auth, padded_key.as_slice(), input.as_slice())
}

/// K1, the integrity key: HMAC of twenty 0x01 bytes under the session integrity key.
pub fn derive_k1(auth: u8, sik: &[u8]) -> (r: IpmiResult<Vec<u8>>)
    ensures
        r is Ok <==> known_auth(auth),
        r matches Ok(k) ==> hmac_spec(auth, sik@, key_constant(1)) == Some(k@),
        r matches Ok(k) ==> k@.len() == digest_len_spec(auth),
        r matches Err(e) ==> e == IpmiError::Protocol(ProtocolError::Hmac(HmacError::UnknownAlgorithm(auth))),
{
    let mut const1: Vec<u8> = Vec::new();
    push_repeated(&mut const1, 0x01, IPMI_AUTHCODE_BUFFER_SIZE);
    assert(const1@ =~= key_constant(1));
    hmac_fn(auth, sik, const1.as_slice())
}

/// K2, the confidentiality key: HMAC of twenty 0x02 bytes under the session integrity key.
pub fn derive_k2(auth: u8, sik: &[u8]) -> (r: IpmiResult<Vec<u8>>)
    ensures
        r is Ok <==> known_auth(auth),
        r matches Ok(k) ==> hmac_spec(auth, sik@, key_constant(2)) == Some(k@),
        r matches Ok(k) ==> k@.len() == digest_len_spec(auth),
        r matches Err(e) ==> e == IpmiError::Protocol(ProtocolError::Hmac(HmacError::UnknownAlgorithm(auth))),
{
    let mut const2: Vec<u8> = Vec::new();
    push_repeated(&mut const2, 0x02, IPMI_AUTHCODE_BUFFER_SIZE);
    assert(const2@ =~= key_constant(2));
    hmac_fn(auth, sik, const2.as_slice())
}


/// The three session keys: the session integrity key, K1 and K2.
pub fn derive_session_keys(
    auth: u8,
    password: &[u8],
    random_a: &[u8],
    random_b: &[u8],
    username: &str,
    priv_level: u8,
) -> (r: IpmiResult<(Vec<u8>, Vec<u8>, Vec<u8>)>)
    ensures
        r is Ok <==> known_auth(auth),
        r matches Ok((sik, k1, k2)) ==> {
            &&& hmac_spec(auth, pad_key_spec(password@), sik_input(random_a@, random_b@, priv_level, username.spec_bytes())) == Some(sik@)
            &&& hmac_spec(auth, sik@, key_constant(1)) == Some(k1@)
            &&& hmac_spec(auth, sik@, key_constant(2)) == Some(k2@)
            &&& sik@.len() == digest_len_spec(auth)
            &&& k1@.len() == digest_len_spec(auth)
            &&& k2@.len() == digest_len_spec(auth)
        },
        r matches Err(e) ==> e == IpmiError::Protocol(ProtocolError::Hmac(HmacError::UnknownAlgorithm(auth))),
{
    let sik = derive_sik(auth, password, random_a, random_b, priv_level, username)?;
    let k1 = derive_k1(auth, sik.as_slice())?;
    let k2 = derive_k2(auth, sik.as_slice())?;
    Ok((sik, k1, k2))
}


/// The algorithm tables: the HMAC of RAKP-HMAC-MD5, -SHA1 and -SHA256 is 16,
/// 20 and 32 bytes long and no other authentication algorithm has one; the
/// integrity code is 12 bytes for HMAC-SHA1-96, 16 bytes for HMAC-MD5-128,
/// MD5-128 and HMAC-SHA256-128, and absent otherwise.
pub proof fn law_algorithm_lengths(auth: u8, integ: u8)
    ensures
        digest_len_spec(0x02) == 16 && digest_len_spec(0x01) == 20 && digest_len_spec(0x03) == 32,
        known_auth(auth) <==> (auth == 0x01 || auth == 0x02 || auth == 0x03),
        !known_auth(auth) ==> digest_len_spec(auth) == 0 && hmac_spec(auth, Seq::empty(), Seq::empty()) is None,
        integrity_code_len_spec(0x01) == 12,
        integrity_code_len_spec(0x02) == 16 && integrity_code_len_spec(0x03) == 16 && integrity_code_len_spec(0x04) == 16,
        (integ == 0 || integ > 4) ==> integrity_code_len_spec(integ) == 0,
        integrity_code_len_spec(integ) <= 16,
{
}

/// The password key is always 20 bytes: the password's first bytes (all of
/// them when it is shorter) followed by zeros.
pub proof fn law_pad_key(password: Seq<u8>)
    ensures
        pad_key_spec(password).len() == 20,
        forall|i: int| 0 <= i < 20 && i < password.len() ==> #[trigger] pad_key_spec(password)[i] == password[i],
        forall|i: int| password.len() <= i < 20 ==> #[trigger] pad_key_spec(password)[i] == 0,
{
}

/// The confidentiality pad adds 1 to 16 bytes to reach a whole number of
/// blocks: the bytes 1, 2, ... up to the last, which holds the number of pad
/// bytes before it; the message itself is kept in front.
pub proof fn law_ipmi_pad_bytes(data: Seq<u8>)
    ensures
        ipmi_pad_spec(data).len() % 16 == 0,
        data.len() < ipmi_pad_spec(data).len() <= data.len() + 16,
        ipmi_pad_spec(data).subrange(0, data.len() as int) == data,
        forall|i: int| data.len() <= i < ipmi_pad_spec(data).len() - 1 ==> #[trigger] ipmi_pad_spec(data)[i] == i - data.len() + 1,
        ipmi_pad_spec(data).last() == ipmi_pad_spec(data).len() - data.len() - 1,
{
    lemma_ipmi_pad_shape(data);
}

/// The session keys: the session integrity key is the HMAC, under the
/// password key, of Random_A, Random_B, the privilege, the user-name length
/// and the user name, in that order; K1 and K2 are the HMACs, under that key,
/// of twenty 0x01 and twenty 0x02 bytes.
pub proof fn law_session_key_inputs(random_a: Seq<u8>, random_b: Seq<u8>, priv_level: u8, username: Seq<u8>)
    ensures
        sik_input(random_a, random_b, priv_level, username)
            == random_a + random_b + seq![priv_level] + seq![(username.len() % 256) as u8] + username,
        key_constant(1) == Seq::new(20, |i: int| 0x01u8),
        key_constant(2) == Seq::new(20, |i: int| 0x02u8),
{
    assert(sik_input(random_a, random_b, priv_level, username)
        =~= random_a + random_b + seq![priv_level] + seq![(username.len() % 256) as u8] + username);
    assert(key_constant(1) =~= Seq::new(20, |i: int| 0x01u8));
    assert(key_constant(2) =~= Seq::new(20, |i: int| 0x02u8));
}

/// The checksum of a section is the byte that brings its sum to 0 modulo 256,
/// and the only such byte.
pub proof fn law_checksum_unique(data: Seq<u8>, c: u8)
    ensures
        byte_sum(data.push(c)) % 256 == 0 <==> c == checksum_spec(data),
{
    assert(data.push(c).drop_last() =~= data);
}

} // verus!
