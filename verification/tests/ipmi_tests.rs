use ipmi_desktop_manager::ipmi::{
    aes_cbc_encrypt, cbc_decrypt, checksum, ipmi_pad, pad_key, IpmiSession,
};

#[test]
fn test_ipmi_pad() {
    let data = vec![0x01, 0x02, 0x03];
    let padded = ipmi_pad(&data);
    assert_eq!(padded.len(), 16);
    // Pad with incrementing bytes 0x01, 0x02, ... (NOT zeros)
    assert_eq!(padded[3], 0x01);
    assert_eq!(padded[4], 0x02);
    assert_eq!(padded[14], 0x0C);
    assert_eq!(padded[15], 12); // pad_length = pad_len - 1
}

#[test]
fn test_ipmi_pad_aligned() {
    let data = vec![0x01; 16];
    let padded = ipmi_pad(&data);
    assert_eq!(padded.len(), 32);
    assert_eq!(padded[31], 15);
}

#[test]
fn test_session_new() {
    let session = IpmiSession::new(
        "192.168.1.100".into(),
        623,
        "ADMIN".into(),
        "password".into(),
    );
    assert!(!session.is_active());
    assert_eq!(session.port, 623);
}

#[test]
fn test_checksum() {
    let data = [0x01, 0x02, 0x03];
    let cs = checksum(&data);
    assert_eq!(cs, 0xFA);
}

#[test]
fn test_pad_key() {
    let short = pad_key(b"ADMIN");
    assert_eq!(short.len(), 20);
    assert_eq!(&short[..5], b"ADMIN");
    assert_eq!(&short[5..], &[0u8; 15]);

    let exact = pad_key(&[0x42u8; 20]);
    assert_eq!(exact.len(), 20);
    assert_eq!(exact, [0x42u8; 20]);

    let long = pad_key(&[0x42u8; 25]);
    assert_eq!(long.len(), 20);
    assert_eq!(long, [0x42u8; 20]);
}

#[test]
fn test_cbc_roundtrip() {
    let key = [0x42u8; 16];
    let iv = [0x24u8; 16];
    let data = b"Hello IPMI!";
    let padded = ipmi_pad(data);
    let encrypted = aes_cbc_encrypt(&key, &iv, &padded).unwrap();
    let decrypted = cbc_decrypt(&key, &iv, &encrypted).unwrap();
    assert_eq!(decrypted, padded);
}
