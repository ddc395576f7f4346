use file_encryptor::{create_encrypted_file, parse_encrypted_file, FileHandler, FormatError};

fn sample_salt() -> Vec<u8> {
    (0u8..32).collect()
}

#[test]
fn container_layout() {
    let salt = sample_salt();
    let payload = vec![9u8, 8, 7];
    let c = create_encrypted_file(&salt, &payload);
    assert_eq!(c.len(), 37 + 3);
    assert_eq!(&c[0..5], &[0x45, 0x4E, 0x43, 0x52, 0x01]);
    assert_eq!(&c[5..37], &salt[..]);
    assert_eq!(&c[37..], &payload[..]);
}

#[test]
fn container_parse_round_trip() {
    let salt = sample_salt();
    let payload = b"nonce-and-ciphertext".to_vec();
    let c = create_encrypted_file(&salt, &payload);
    let (s, p) = parse_encrypted_file(&c).unwrap();
    assert_eq!(&s[..], &salt[..]);
    assert_eq!(p, payload);
}

#[test]
fn parse_header_only_gives_empty_payload() {
    let c = create_encrypted_file(&sample_salt(), &[]);
    assert_eq!(c.len(), 37);
    let (_, p) = parse_encrypted_file(&c).unwrap();
    assert!(p.is_empty());
}

#[test]
fn parse_rejects_too_short() {
    assert_eq!(parse_encrypted_file(&[]), Err(FormatError::TooShort));
    let mut c = create_encrypted_file(&sample_salt(), &[]);
    c.pop();
    assert_eq!(c.len(), 36);
    assert_eq!(parse_encrypted_file(&c), Err(FormatError::TooShort));
}

#[test]
fn parse_rejects_bad_magic() {
    let mut c = create_encrypted_file(&sample_salt(), &[1, 2, 3]);
    c[0] = b'X';
    assert_eq!(parse_encrypted_file(&c), Err(FormatError::BadMagic));
    let mut c = create_encrypted_file(&sample_salt(), &[1, 2, 3]);
    c[3] = b'S';
    assert_eq!(parse_encrypted_file(&c), Err(FormatError::BadMagic));
}

#[test]
fn parse_rejects_other_versions() {
    for v in [0u8, 2, 255] {
        let mut c = create_encrypted_file(&sample_salt(), &[1, 2, 3]);
        c[4] = v;
        assert_eq!(parse_encrypted_file(&c), Err(FormatError::UnsupportedVersion));
    }
}

#[test]
fn file_handler_delegates_to_format() {
    let salt = sample_salt();
    let c = FileHandler::create_encrypted_file(&salt, b"abc");
    assert_eq!(c, create_encrypted_file(&salt, b"abc"));
    let (s, p) = FileHandler::parse_encrypted_file(&c).unwrap();
    assert_eq!(&s[..], &salt[..]);
    assert_eq!(p, b"abc".to_vec());
    assert_eq!(FileHandler::parse_encrypted_file(&c[..10]), Err(FormatError::TooShort));
}

#[test]
fn format_error_messages() {
    assert_eq!(FormatError::TooShort.message(), "Invalid encrypted file: too short");
    assert_eq!(FormatError::BadMagic.message(), "Invalid encrypted file: wrong magic bytes");
    assert_eq!(FormatError::UnsupportedVersion.message(), "Unsupported file version");
}
