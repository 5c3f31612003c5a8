use ipmi_desktop_manager::bytes::{read_le16, read_le32};
use ipmi_desktop_manager::ipmi::packet::{
    build_open_session, build_rakp_m1, build_rakp_m3, open_session_response_is_readable,
    parse_open_session_response, parse_rakp_m2, parse_rakp_m4, rakp_m4_is_readable,
};
use ipmi_desktop_manager::ipmi::session::{build_lan_request, complete_response, strip_confidentiality_trailer};
use ipmi_desktop_manager::ipmi::sol::{decode_sol_payload, plan_sol_input, sol_input_data};
use ipmi_desktop_manager::ipmi::{
    aes_cbc_encrypt, cbc_decrypt, checksum, derive_k1, derive_k2, derive_sik, hmac_digest_len, hmac_fn,
    integrity_code_len, ipmi_pad, pad_key, rakp_icv_len, AuthFailure, HmacError, IpmiError, IpmiSession,
    ProtocolError, SessionFailure, AUTH_MD5, AUTH_SHA1, AUTH_SHA256, CRYPT_AES_CBC_128, CRYPT_NONE,
    INTEG_SHA1_96,
};

fn hex(s: &str) -> Vec<u8> {
    (0..s.len()).step_by(2).map(|i| u8::from_str_radix(&s[i..i + 2], 16).unwrap()).collect()
}

const FOX: &[u8] = b"The quick brown fox jumps over the lazy dog";

#[test]
fn hmac_known_answers() {
    assert_eq!(hmac_fn(AUTH_MD5, b"key", FOX).unwrap(), hex("80070713463e7749b90c2dc24911e275"));
    assert_eq!(hmac_fn(AUTH_SHA1, b"key", FOX).unwrap(), hex("de7c9b85b8b78aa6bc8a7a36f70a90701c9db4d9"));
    assert_eq!(
        hmac_fn(AUTH_SHA256, b"key", FOX).unwrap(),
        hex("f7bc83f430538424b13298e6aa6fb143ef4d59a14946175997479dbc2d1a3cd8")
    );
}

#[test]
fn hmac_unknown_algorithm() {
    assert_eq!(
        hmac_fn(0x07, b"key", FOX),
        Err(IpmiError::Protocol(ProtocolError::Hmac(HmacError::UnknownAlgorithm(0x07))))
    );
}

#[test]
fn algorithm_lengths() {
    assert_eq!(hmac_digest_len(AUTH_MD5), 16);
    assert_eq!(hmac_digest_len(AUTH_SHA1), 20);
    assert_eq!(hmac_digest_len(AUTH_SHA256), 32);
    assert_eq!(hmac_digest_len(0x00), 0);
    assert_eq!(rakp_icv_len(AUTH_SHA256), 32);
    assert_eq!(integrity_code_len(0x01), 12);
    assert_eq!(integrity_code_len(0x02), 16);
    assert_eq!(integrity_code_len(0x03), 16);
    assert_eq!(integrity_code_len(0x04), 16);
    assert_eq!(integrity_code_len(0x00), 0);
}

#[test]
fn aes_known_answer() {
    let key = hex("2b7e151628aed2a6abf7158809cf4f3c");
    let iv = hex("000102030405060708090a0b0c0d0e0f");
    let pt = hex("6bc1bee22e409f96e93d7e117393172a");
    let ct = aes_cbc_encrypt(&key, &iv, &pt).unwrap();
    assert_eq!(ct, hex("7649abac8119b246cee98e9b12e9197d"));
    assert_eq!(cbc_decrypt(&key, &iv, &ct).unwrap(), pt);
}

#[test]
fn aes_refusals() {
    let key = [0u8; 16];
    let iv = [0u8; 16];
    assert_eq!(aes_cbc_encrypt(&key[..15], &iv, &[0u8; 16]), Err(IpmiError::Protocol(ProtocolError::InvalidKeyOrIv)));
    assert_eq!(aes_cbc_encrypt(&key, &iv[..8], &[0u8; 16]), Err(IpmiError::Protocol(ProtocolError::InvalidKeyOrIv)));
    assert_eq!(aes_cbc_encrypt(&key, &iv, &[0u8; 15]), Err(IpmiError::Protocol(ProtocolError::EncryptionPadding)));
    assert_eq!(cbc_decrypt(&key, &iv, &[0u8; 17]), Err(IpmiError::Protocol(ProtocolError::DecryptionFailed)));
    assert_eq!(cbc_decrypt(&key[..4], &iv, &[0u8; 16]), Err(IpmiError::Protocol(ProtocolError::InvalidKeyOrIv)));
}

#[test]
fn checksum_zeroes_the_sum() {
    let data = [0x20u8, 0x18, 0x99, 0x01];
    let c = checksum(&data);
    let sum: u32 = data.iter().map(|b| *b as u32).sum::<u32>() + c as u32;
    assert_eq!(sum % 256, 0);
    assert_eq!(checksum(&[]), 0);
}

#[test]
fn pad_shape_and_undo() {
    for len in 0..40usize {
        let data: Vec<u8> = (0..len as u8).collect();
        let padded = ipmi_pad(&data);
        assert_eq!(padded.len() % 16, 0);
        assert!(padded.len() > data.len());
        assert_eq!(&padded[..len], &data[..]);
        let last = *padded.last().unwrap() as usize;
        assert_eq!(len + last + 1, padded.len());
        let stripped = strip_confidentiality_trailer(&padded).unwrap();
        if len % 16 == 15 {
            assert_eq!(stripped, Err(IpmiError::Protocol(ProtocolError::InvalidPadding)));
        } else {
            assert_eq!(stripped, Ok(data.clone()));
        }
    }
}

#[test]
fn trailer_leaving_nothing() {
    assert!(strip_confidentiality_trailer(&[1, 2, 3]).is_none());
    assert_eq!(strip_confidentiality_trailer(&[]), Some(Err(IpmiError::Protocol(ProtocolError::InvalidPadding))));
    assert_eq!(strip_confidentiality_trailer(&[9, 9, 17]), Some(Err(IpmiError::Protocol(ProtocolError::InvalidPadding))));
}

#[test]
fn completion_codes() {
    assert_eq!(complete_response(&[1, 2, 0]), Ok(vec![1, 2]));
    assert_eq!(complete_response(&[1, 2, 0xC1]), Err(IpmiError::Protocol(ProtocolError::CompletionCode(0xC1))));
    assert_eq!(complete_response(&[1, 5]), Ok(vec![1, 5]));
}

#[test]
fn little_endian_reads() {
    assert_eq!(read_le16(0x34, 0x12), 0x1234);
    assert_eq!(read_le32(0x78, 0x56, 0x34, 0x12), 0x12345678);
}

#[test]
fn open_session_request_layout() {
    let pkt = build_open_session(0x01, 0x01, 0x01, 0xA0A2A3A4);
    assert_eq!(pkt.len(), 48);
    assert_eq!(&pkt[..6], &[0xFF, 0x00, 0xFF, 0x07, 0x06, 0x10]);
    assert_eq!(&pkt[14..16], &[32, 0]);
    assert_eq!(&pkt[16..24], &[0x00, 0x04, 0x00, 0x00, 0xA4, 0xA3, 0xA2, 0xA0]);
    assert_eq!(&pkt[24..32], &[0x00, 0x00, 0x00, 0x08, 0x01, 0x00, 0x00, 0x00]);
    assert_eq!(&pkt[32..40], &[0x01, 0x00, 0x00, 0x08, 0x01, 0x00, 0x00, 0x00]);
    assert_eq!(&pkt[40..48], &[0x02, 0x00, 0x00, 0x08, 0x01, 0x00, 0x00, 0x00]);
}

fn open_session_response(status: u8, msglen: u16, total: usize) -> Vec<u8> {
    let mut p = vec![0u8; total];
    p[5] = 0x11;
    p[14] = (msglen & 0xff) as u8;
    p[15] = (msglen >> 8) as u8;
    if total > 17 {
        p[17] = status;
    }
    if total >= 49 {
        p[24..28].copy_from_slice(&0x01020304u32.to_le_bytes());
        p[32] = 0x01;
        p[40] = 0x01;
        p[48] = 0x00;
    }
    p
}

#[test]
fn open_session_response_parsing() {
    let ok = open_session_response(0, 36, 52);
    assert!(open_session_response_is_readable(&ok));
    assert_eq!(parse_open_session_response(&ok), Ok((0x01020304, 0x01, 0x01, 0x00)));
    assert_eq!(parse_open_session_response(&ok[..10]), Err(ProtocolError::ResponseTooShort(10)));
    let mut wrong = ok.clone();
    wrong[5] = 0x13;
    assert_eq!(parse_open_session_response(&wrong), Err(ProtocolError::NotOpenSessionResponse(0x13)));
    let refused = open_session_response(0x12, 8, 24);
    assert_eq!(parse_open_session_response(&refused), Err(ProtocolError::OpenSessionFailed(0x12, 8)));
    let short = open_session_response(0, 20, 40);
    assert_eq!(parse_open_session_response(&short), Err(ProtocolError::OpenSessionMsgLenTooSmall(20)));
    let zero = open_session_response(0, 0, 20);
    assert_eq!(parse_open_session_response(&zero), Err(ProtocolError::MsgLenTooSmall(0)));
    let mut one = open_session_response(0, 1, 17);
    one[16] = 0x09;
    assert_eq!(parse_open_session_response(&one), Err(ProtocolError::OpenSessionFailed(0x09, 1)));
    let lying = open_session_response(0, 36, 40);
    assert!(!open_session_response_is_readable(&lying));
}

#[test]
fn rakp_m1_layout() {
    let ra = [0xAAu8; 16];
    let pkt = build_rakp_m1(&ra, 0x11223344, "ADMIN", 0x04);
    assert_eq!(pkt.len(), 16 + 28 + 5);
    assert_eq!(pkt[5], 0x12);
    assert_eq!(&pkt[14..16], &[33, 0]);
    assert_eq!(&pkt[20..24], &[0x44, 0x33, 0x22, 0x11]);
    assert_eq!(&pkt[24..40], &ra);
    assert_eq!(&pkt[40..44], &[0x04, 0, 0, 5]);
    assert_eq!(&pkt[44..], b"ADMIN");
    let long = build_rakp_m1(&ra, 1, "abcdefghijklmnopqrst", 0x04);
    assert_eq!(&long[14..16], &[44, 0]);
    assert_eq!(long[43], 16);
    assert_eq!(&long[44..], b"abcdefghijklmnopqrst");
}

fn rakp_m2(status: u8) -> Vec<u8> {
    let mut p = vec![0u8; 56];
    p[5] = 0x13;
    p[14] = 40;
    p[17] = status;
    p[20..24].copy_from_slice(&0xA0A2A3A4u32.to_le_bytes());
    for i in 0..16 {
        p[24 + i] = i as u8;
        p[40 + i] = 0x80 + i as u8;
    }
    p
}

#[test]
fn rakp_m2_parsing() {
    let (sid, rb, guid) = parse_rakp_m2(&rakp_m2(0)).unwrap();
    assert_eq!(sid, 0xA0A2A3A4);
    assert_eq!(rb, (0..16).collect::<Vec<u8>>());
    assert_eq!(guid, (0x80..0x90).collect::<Vec<u8>>());
    assert_eq!(parse_rakp_m2(&rakp_m2(0x0D)), Err(ProtocolError::Rakp2Failed(0x0D)));
    assert_eq!(parse_rakp_m2(&[0u8; 30]), Err(ProtocolError::Rakp2TooShort(30)));
}

#[test]
fn rakp_m3_carries_the_password_proof() {
    let rb = [7u8; 16];
    let pkt = build_rakp_m3(0x01020304, 0xA0A2A3A4, &[0u8; 16], &rb, "ADMIN", b"secret", AUTH_SHA1, 0x04);
    assert_eq!(pkt.len(), 16 + 8 + 20);
    assert_eq!(pkt[5], 0x14);
    assert_eq!(&pkt[14..16], &[0, 0]);
    assert_eq!(&pkt[16..20], &[26, 0, 0, 0]);
    assert_eq!(&pkt[20..24], &[0x04, 0x03, 0x02, 0x01]);
    let mut input = rb.to_vec();
    input.extend_from_slice(&0xA0A2A3A4u32.to_le_bytes());
    input.extend_from_slice(&[0x04, 5]);
    input.extend_from_slice(b"ADMIN");
    let icv = hmac_fn(AUTH_SHA1, &pad_key(b"secret"), &input).unwrap();
    assert_eq!(&pkt[24..], &icv[..]);
}

#[test]
fn rakp_m4_checking() {
    let sik = [3u8; 20];
    let ra = [1u8; 16];
    let guid = [2u8; 16];
    let mut input = ra.to_vec();
    input.extend_from_slice(&0x55667788u32.to_le_bytes());
    input.extend_from_slice(&guid);
    let full = hmac_fn(AUTH_SHA1, &sik, &input).unwrap();
    // Without the GUID field: payload = 8 + 12.
    let mut p = vec![0u8; 16 + 8 + 12];
    p[5] = 0x15;
    p[14] = 20;
    p[24..36].copy_from_slice(&full[..12]);
    assert!(rakp_m4_is_readable(&p));
    assert_eq!(parse_rakp_m4(&p, AUTH_SHA1, INTEG_SHA1_96, &sik, &ra, 0x55667788, &guid), Ok(full[..12].to_vec()));
    let mut bad = p.clone();
    bad[30] ^= 1;
    assert_eq!(
        parse_rakp_m4(&bad, AUTH_SHA1, INTEG_SHA1_96, &sik, &ra, 0x55667788, &guid),
        Err(ProtocolError::Rakp4IcvMismatch)
    );
    // With the GUID field the check value starts after it.
    let mut q = vec![0u8; 16 + 8 + 16 + 12];
    q[5] = 0x15;
    q[14] = 36;
    q[40..52].copy_from_slice(&full[..12]);
    assert_eq!(parse_rakp_m4(&q, AUTH_SHA1, INTEG_SHA1_96, &sik, &ra, 0x55667788, &guid), Ok(full[..12].to_vec()));
    let mut refused = p.clone();
    refused[17] = 0x02;
    assert_eq!(parse_rakp_m4(&refused, AUTH_SHA1, INTEG_SHA1_96, &sik, &ra, 0x55667788, &guid), Err(ProtocolError::Rakp4Failed(2)));
    assert!(!rakp_m4_is_readable(&[0u8; 4]));
}

#[test]
fn key_derivation() {
    let sik = derive_sik(AUTH_SHA1, b"pw", &[1u8; 16], &[2u8; 16], 0x04, "ADMIN").unwrap();
    let mut input = vec![1u8; 16];
    input.extend_from_slice(&[2u8; 16]);
    input.extend_from_slice(&[0x04, 5]);
    input.extend_from_slice(b"ADMIN");
    assert_eq!(sik, hmac_fn(AUTH_SHA1, &pad_key(b"pw"), &input).unwrap());
    assert_eq!(derive_k1(AUTH_SHA1, &sik).unwrap(), hmac_fn(AUTH_SHA1, &sik, &[1u8; 20]).unwrap());
    assert_eq!(derive_k2(AUTH_SHA1, &sik).unwrap(), hmac_fn(AUTH_SHA1, &sik, &[2u8; 20]).unwrap());
    assert!(derive_sik(0x09, b"pw", &[], &[], 4, "x").is_err());
}

fn established(confid: u8) -> IpmiSession {
    let mut s = IpmiSession::with_initiator_id("h".into(), 623, "ADMIN".into(), "pw".into(), 0xA0A2A3A4);
    s.managed_system_session_id = 0x1234;
    s.confid_algo = confid;
    s.sik = vec![9u8; 20];
    s.k1 = vec![5u8; 20];
    s.k2 = vec![6u8; 20];
    s
}

#[test]
fn fresh_session_fields() {
    let s = IpmiSession::with_initiator_id("host".into(), 623, "ADMIN".into(), "pässword".into(), 7);
    assert_eq!(s.initiator_session_id, 7);
    assert_eq!(s.password, "pässword".as_bytes().to_vec());
    assert_eq!(s.auth_algo, AUTH_SHA1);
    assert_eq!(s.integ_algo, INTEG_SHA1_96);
    assert_eq!(s.confid_algo, CRYPT_AES_CBC_128);
    assert_eq!(s.priv_level, 4);
    assert!(!s.is_active());
    assert!(established(CRYPT_NONE).is_active());
}

#[test]
fn lan_request_layout() {
    let msg = build_lan_request(0x06, 3, 0x01, &[0xAB]);
    assert_eq!(msg, vec![0x20, 0x18, 0xC8, 0x81, 0x0C, 0x01, 0xAB, checksum(&[0x81, 0x0C, 0x01, 0xAB])]);
    assert_eq!(build_lan_request(0x40, 0x41, 1, &[])[1], 0x00);
    assert_eq!(build_lan_request(0x40, 0x41, 1, &[])[4], 0x04);
}

#[test]
fn framed_request_is_accepted_by_the_same_keys_plain() {
    let mut s = established(CRYPT_NONE);
    let receiver = s.clone();
    // body checksum is 0 so the decoder reads a zero completion code.
    let pkt = s.prepare_command_with_iv(0x06, 0x01, &[0x7E], &[0u8; 16]).unwrap();
    assert_eq!(s.seq_number, 1);
    assert_eq!(s.ipmi_seq, 1);
    assert_eq!(pkt[5], 0x40);
    let msg = build_lan_request(0x06, 0, 0x01, &[0x7E]);
    assert_eq!(receiver.decode_response(&pkt), Some(Ok(msg[..msg.len() - 1].to_vec())));
    let mut tampered = pkt.clone();
    tampered[17] ^= 0xFF;
    assert_eq!(receiver.decode_response(&tampered), Some(Err(IpmiError::AuthFailed(AuthFailure::Integrity))));
}

#[test]
fn framed_request_is_accepted_by_the_same_keys_encrypted() {
    let mut s = established(CRYPT_AES_CBC_128);
    let receiver = s.clone();
    let pkt = s.prepare_command(0x06, 0x01, &[0x7E]).unwrap();
    assert_eq!(pkt[5], 0xC0);
    let msg = build_lan_request(0x06, 0, 0x01, &[0x7E]);
    assert_eq!(receiver.decode_response(&pkt), Some(Ok(msg[..msg.len() - 1].to_vec())));
    let mut tampered = pkt.clone();
    tampered[40] ^= 1;
    assert_eq!(receiver.decode_response(&tampered), Some(Err(IpmiError::AuthFailed(AuthFailure::OuterIntegrity))));
}

#[test]
fn encrypted_request_carries_only_ciphertext() {
    let mut s = established(CRYPT_AES_CBC_128);
    let k2 = s.k2.clone();
    let iv = [0x24u8; 16];
    let data = [0xA5u8; 20];
    let pkt = s.prepare_command_with_iv(0x06, 0x01, &data, &iv).unwrap();
    let msg = build_lan_request(0x06, 0, 0x01, &data);
    let q = read_le16(pkt[14], pkt[15]) as usize;
    assert_eq!(pkt[5] & 0x80, 0x80);
    assert_eq!(&pkt[16..32], &iv[..]);
    assert_eq!(q, 16 + 32);
    let c = &pkt[32..16 + q];
    assert_eq!(c.len() % 16, 0);
    assert_eq!(cbc_decrypt(&k2[..16], &iv, c), Ok(ipmi_pad(&msg)));
    assert!(!pkt.windows(msg.len()).any(|w| w == &msg[..]));
}

#[test]
fn response_refusals() {
    let s = established(CRYPT_NONE);
    assert_eq!(s.decode_response(&[0u8; 10]), Some(Err(IpmiError::InvalidResponse)));
    let mut enc = vec![0u8; 20];
    enc[5] = 0x80;
    assert_eq!(s.decode_response(&enc), Some(Err(IpmiError::Protocol(ProtocolError::EncryptedResponseTooShort))));
    let mut trunc = vec![0u8; 40];
    trunc[5] = 0x80;
    trunc[14] = 100;
    assert_eq!(s.decode_response(&trunc), Some(Err(IpmiError::Protocol(ProtocolError::EncryptedResponseTruncated))));
    let mut plain = vec![0u8; 20];
    plain[14] = 50;
    assert_eq!(s.decode_response(&plain), Some(Err(IpmiError::Protocol(ProtocolError::ResponseDataTooShort))));
    let mut under_iv = vec![0u8; 40];
    under_iv[5] = 0x80;
    under_iv[14] = 4;
    assert_eq!(s.decode_response(&under_iv), None);
}

#[test]
fn session_handshake_steps() {
    let mut s = IpmiSession::with_initiator_id("h".into(), 623, "ADMIN".into(), "pw".into(), 0xA0A2A3A4);
    let req = s.open_session_request();
    assert_eq!(req, build_open_session(AUTH_SHA1, INTEG_SHA1_96, CRYPT_AES_CBC_128, 0xA0A2A3A4));
    let rsp = open_session_response(0, 36, 52);
    assert_eq!(s.handle_open_session_response(&rsp), Ok(()));
    assert_eq!(s.managed_system_session_id, 0x01020304);
    assert_eq!(s.confid_algo, CRYPT_NONE);
    let m1 = s.start_rakp(vec![1u8; 16]);
    assert_eq!(m1, build_rakp_m1(&[1u8; 16], 0x01020304, "ADMIN", 4));
    assert!(s.can_answer_rakp_m2(&rakp_m2(0)));
    let m3 = s.handle_rakp_m2(&rakp_m2(0)).unwrap();
    assert_eq!(m3, build_rakp_m3(0x01020304, 0xA0A2A3A4, &[1u8; 16], &s.random_b, "ADMIN", b"pw", AUTH_SHA1, 4));
    let (sik, k1, k2) = s.derive_session_keys().unwrap();
    let mut input = s.random_a.clone();
    input.extend_from_slice(&0x01020304u32.to_le_bytes());
    input.extend_from_slice(&s.guid);
    let full = hmac_fn(AUTH_SHA1, &sik, &input).unwrap();
    let mut m4 = vec![0u8; 16 + 8 + 16 + 12];
    m4[5] = 0x15;
    m4[14] = 36;
    m4[40..52].copy_from_slice(&full[..12]);
    let mut bad = m4.clone();
    bad[40] ^= 1;
    assert_eq!(s.finish_rakp(&bad), Err(IpmiError::Protocol(ProtocolError::Rakp4IcvMismatch)));
    assert!(s.sik.is_empty());
    assert_eq!(s.finish_rakp(&m4), Ok(()));
    assert_eq!(s.sik, sik);
    assert_eq!(s.k1, k1);
    assert_eq!(s.k2, k2);
    let mut expected_sik_input = vec![1u8; 16];
    expected_sik_input.extend_from_slice(&s.random_b);
    expected_sik_input.extend_from_slice(&[4, 5]);
    expected_sik_input.extend_from_slice(b"ADMIN");
    assert_eq!(s.sik, hmac_fn(AUTH_SHA1, &pad_key(b"pw"), &expected_sik_input).unwrap());
    assert!(s.is_active());
}

#[test]
fn sol_payloads() {
    assert_eq!(decode_sol_payload(&[0, 0, 1, 0, 0, 0, 0, 3, b'a', b'b', b'c', 0]), Ok(b"abc".to_vec()));
    assert_eq!(decode_sol_payload(&[0, 0, 1, 0, 0, 0, 0, 200, b'a', b'b']), Ok(b"ab".to_vec()));
    assert_eq!(decode_sol_payload(&[0; 9]), Err(IpmiError::Protocol(ProtocolError::SolPayloadTooShort)));
    let d = sol_input_data(0x01020304, b"ls\n");
    assert_eq!(d.len(), 16);
    assert_eq!(&d[..10], &[0x00, 0x01, 0x04, 0x03, 0x02, 0x01, 3, b'l', b's', b'\n']);
    assert!(d[10..].iter().all(|b| *b == 0xFF));
    assert_eq!(sol_input_data(0, &[0u8; 9]).len(), 16);
    assert_eq!(plan_sol_input(None, b""), Ok(None));
    assert_eq!(plan_sol_input(None, b"x"), Err(IpmiError::Session(SessionFailure::NoSession)));
    assert_eq!(plan_sol_input(Some(0), b"x"), Ok(Some(sol_input_data(0, b"x"))));
}
