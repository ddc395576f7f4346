use vstd::prelude::*;

verus! {

/// Why a byte string is not a container this library can read.
#[derive(Debug, Clone, Copy, PartialEq, Eq, Structural)]
pub enum FormatError {
    /// Fewer bytes than the fixed header (magic, version, salt).
    TooShort,
    /// The first four bytes are not the container tag.
    BadMagic,
    /// The version byte names a layout this library does not read.
    UnsupportedVersion,
}

/// Failures of key derivation or of the authenticated cipher.
#[derive(Debug, Clone, Copy, PartialEq, Eq, Structural)]
pub enum CryptoError {
    /// The password hash refused its inputs.
    KeyDerivation,
    /// The plaintext is longer than the cipher can seal under one nonce.
    MessageTooLong,
    /// The sealed input is too short to hold a nonce.
    InvalidInput,
    /// The authentication tag did not verify: wrong password or altered data.
    AuthenticationFailure,
}

/// Any failure of a whole encrypt or decrypt operation on bytes.
#[derive(Debug, Clone, Copy, PartialEq, Eq, Structural)]
pub enum EncryptorError {
    Format(FormatError),
    Crypto(CryptoError),
}

impl FormatError {
    pub fn message(&self) -> (r: String) {
        match self {
            FormatError::TooShort => String::from_str("Invalid encrypted file: too short"),
            FormatError::BadMagic => String::from_str("Invalid encrypted file: wrong magic bytes"),
            FormatError::UnsupportedVersion => String::from_str("Unsupported file version"),
        }
    }
}

impl CryptoError {
    pub fn message(&self) -> (r: String) {
        match self {
            CryptoError::KeyDerivation => String::from_str("Failed to derive key from password"),
            CryptoError::MessageTooLong => String::from_str("Encryption failed: plaintext too long"),
            CryptoError::InvalidInput => String::from_str("Invalid ciphertext: too short"),
            CryptoError::AuthenticationFailure => String::from_str(
                "Decryption failed: wrong password or corrupted data",
            ),
        }
    }
}

impl EncryptorError {
    pub fn message(&self) -> (r: String) {
        match self {
            EncryptorError::Format(e) => e.message(),
            EncryptorError::Crypto(e) => e.message(),
        }
    }
}

} // verus!
