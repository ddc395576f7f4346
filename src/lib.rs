//! Password-based file encryption: an Argon2id key, AES-256-GCM sealing, a
//! versioned container format, and the naming rules used when files and
//! whole directory trees are encrypted or decrypted.

pub mod batch;
pub mod cli;
pub mod crypto;
pub mod envelope;
pub mod error;
pub mod file_handler;
pub mod format;
pub mod naming;

pub use batch::{select_encrypted, BatchRun};
pub use cli::{Cli, Commands};
pub use crypto::Encryptor;
pub use envelope::{decrypt_file, encrypt_file, BatchEncryptor};
pub use error::{CryptoError, EncryptorError, FormatError};
pub use file_handler::FileHandler;
pub use format::{create_encrypted_file, parse_encrypted_file};
