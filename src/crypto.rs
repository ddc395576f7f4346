use crate::error::CryptoError;
use aes_gcm::aead::{Aead, AeadCore, KeyInit, OsRng};
use rand::RngCore;
use vstd::prelude::*;
use vstd::slice::slice_subrange;
use vstd::string::{StrSliceExecFns, StringSliceAdditionalSpecFns};

verus! {

#[verifier::external_type_specification]
#[verifier::external_body]
pub struct ExArgon2Error(argon2::Error);

#[verifier::external_type_specification]
#[verifier::external_body]
pub struct ExAeadError(aes_gcm::Error);

/// Argon2 memory cost, in KiB blocks (64 MiB).
pub const ARGON2_M_COST: u32 = 65536;

/// Argon2 number of passes.
pub const ARGON2_T_COST: u32 = 3;

/// Argon2 lanes.
pub const ARGON2_P_COST: u32 = 4;

/// Length of the AES-GCM nonce placed before each ciphertext.
pub const NONCE_LEN: usize = 12;

/// Length of the AES-GCM authentication tag at the end of each ciphertext.
pub const TAG_LEN: usize = 16;

/// Longest plaintext sealed under one nonce: the 32-bit block counter of
/// GCM leaves 2^32 - 2 blocks of keystream.
pub const MAX_PLAINTEXT_LEN: u64 = 68719476704;

/// The 32-byte Argon2id (version 0x13) output for the given costs, password
/// bytes and salt.
pub uninterp spec fn argon2id_key(
    m_cost: u32,
    t_cost: u32,
    p_cost: u32,
    password: Seq<u8>,
    salt: Seq<u8>,
) -> Seq<u8>;

/// AES-256-GCM with no associated data: the ciphertext of `plaintext` under
/// `key` and `nonce`, followed by the 16-byte tag.
pub uninterp spec fn aes256gcm_seal(key: Seq<u8>, nonce: Seq<u8>, plaintext: Seq<u8>) -> Seq<u8>;

/// The costs that argon2's `Params::new` accepts.
pub open spec fn argon2_costs_valid(m_cost: u32, t_cost: u32, p_cost: u32) -> bool {
    &&& m_cost >= 8
    &&& m_cost >= 8 * p_cost
    &&& t_cost >= 1
    &&& 1 <= p_cost <= 0xFF_FFFF
}

/// The key this library derives from the password's UTF-8 bytes and a salt.
pub open spec fn derived_key(password: Seq<u8>, salt: Seq<u8>) -> Seq<u8> {
    argon2id_key(ARGON2_M_COST, ARGON2_T_COST, ARGON2_P_COST, password, salt)
}

/// The inputs on which key derivation succeeds.
pub open spec fn derivable(password: Seq<u8>, salt: Seq<u8>) -> bool {
    password.len() <= 0xFFFF_FFFF && 8 <= salt.len() <= 0xFFFF_FFFF
}

/// `sealed` is a nonce followed by the AES-256-GCM sealing of `plaintext`
/// under `key` and that nonce.
pub open spec fn opens_to(key: Seq<u8>, sealed: Seq<u8>, plaintext: Seq<u8>) -> bool {
    &&& plaintext.len() <= MAX_PLAINTEXT_LEN
    &&& sealed.len() == NONCE_LEN + plaintext.len() + TAG_LEN
    &&& aes256gcm_seal(key, sealed.subrange(0, NONCE_LEN as int), plaintext) == sealed.subrange(
        NONCE_LEN as int,
        sealed.len() as int,
    )
}

/// Relies on argon2's `Params::new`, `Argon2::new` and
/// `Argon2::hash_password_into` (Argon2id, version 0x13, 32-byte output).
/// The output depends on the costs, password and salt alone. `Params::new`
/// refuses costs outside `argon2_costs_valid` (and overflows on a lane count
/// past 2^24 - 1, which `requires` leaves out); `hash_password_into` refuses
/// a password longer than 2^32 - 1 bytes and a salt outside 8 ..= 2^32 - 1.
#[verifier::external_body]
fn argon2id_hash(m_cost: u32, t_cost: u32, p_cost: u32, password: &[u8], salt: &[u8]) -> (r: Result<[u8; 32], argon2::Error>)
    requires
        p_cost <= 0xFF_FFFF,
    ensures
        r is Ok <==> (argon2_costs_valid(m_cost, t_cost, p_cost) && password@.len() <= 0xFFFF_FFFF
            && 8 <= salt@.len() <= 0xFFFF_FFFF),
        r is Ok ==> r->Ok_0@ == argon2id_key(m_cost, t_cost, p_cost, password@, salt@),
{
    let params = argon2::Params::new(m_cost, t_cost, p_cost, Some(32))?;
    let mut key = [0u8; 32];
    argon2::Argon2::new(argon2::Algorithm::Argon2id, argon2::Version::V0x13, params)
        .hash_password_into(password, salt, &mut key)?;
    Ok(key)
}

/// Relies on `Aes256Gcm::new` and `Aead::encrypt` with no associated data:
/// it returns the ciphertext with the 16-byte tag appended, and fails only
/// on a plaintext longer than 2^36 bytes.
#[verifier::external_body]
fn aes256gcm_encrypt(key: &[u8; 32], nonce: &[u8; 12], plaintext: &[u8]) -> (r: Result<Vec<u8>, aes_gcm::Error>)
    requires
        plaintext@.len() <= MAX_PLAINTEXT_LEN,
    ensures
        r is Ok,
        r is Ok ==> r->Ok_0@ == aes256gcm_seal(key@, nonce@, plaintext@),
        r is Ok ==> r->Ok_0@.len() == plaintext@.len() + TAG_LEN,
{
    let cipher = aes_gcm::Aes256Gcm::new(aes_gcm::Key::<aes_gcm::Aes256Gcm>::from_slice(key));
    cipher.encrypt(aes_gcm::Nonce::from_slice(nonce), plaintext)
}

/// Relies on `Aes256Gcm::new` and `Aead::decrypt` with no associated data:
/// it succeeds exactly when the input is the sealing of some plaintext under
/// the key and nonce (the tag verifies), and then returns that plaintext;
/// otherwise it returns an error and no plaintext.
#[verifier::external_body]
fn aes256gcm_decrypt(key: &[u8; 32], nonce: &[u8], ciphertext: &[u8]) -> (r: Result<Vec<u8>, aes_gcm::Error>)
    requires
        nonce@.len() == NONCE_LEN,
        ciphertext@.len() <= MAX_PLAINTEXT_LEN + TAG_LEN,
    ensures
        r is Ok ==> r->Ok_0@.len() <= MAX_PLAINTEXT_LEN,
        r is Ok ==> ciphertext@.len() == r->Ok_0@.len() + TAG_LEN,
        r is Ok ==> aes256gcm_seal(key@, nonce@, r->Ok_0@) == ciphertext@,
        forall|p: Seq<u8>|
            p.len() <= MAX_PLAINTEXT_LEN && #[trigger] aes256gcm_seal(key@, nonce@, p)
                == ciphertext@ ==> r is Ok && r->Ok_0@ == p,
{
    let cipher = aes_gcm::Aes256Gcm::new(aes_gcm::Key::<aes_gcm::Aes256Gcm>::from_slice(key));
    cipher.decrypt(aes_gcm::Nonce::from_slice(nonce), ciphertext)
}

/// Relies on `AeadCore::generate_nonce` with the operating system's secure
/// generator: 12 random bytes, of which nothing else is known.
#[verifier::external_body]
fn random_nonce() -> (r: [u8; 12]) {
    aes_gcm::Aes256Gcm::generate_nonce(&mut OsRng).into()
}

/// Relies on `RngCore::fill_bytes` of the operating system's secure
/// generator: 32 random bytes, of which nothing else is known.
#[verifier::external_body]
fn random_salt() -> (r: [u8; 32]) {
    let mut salt = [0u8; 32];
    OsRng.fill_bytes(&mut salt);
    salt
}

/// An AES-256-GCM cipher bound to one derived key.
pub struct Encryptor {
    key: [u8; 32],
}

impl View for Encryptor {
    type V = Seq<u8>;

    /// The key the cipher seals and opens with.
    closed spec fn view(&self) -> Seq<u8> {
        self.key@
    }
}

impl Encryptor {
    /// Derives the 32-byte key for `password` and `salt` with Argon2id at the
    /// fixed costs of the format (64 MiB, 3 passes, 4 lanes).
    pub fn derive_key_from_password(password: &str, salt: &[u8]) -> (r: Result<[u8; 32], CryptoError>)
        ensures
            r is Ok <==> derivable(password.spec_bytes(), salt@),
            r is Ok ==> r->Ok_0@ == derived_key(password.spec_bytes(), salt@),
            r is Err ==> r == Err::<[u8; 32], CryptoError>(CryptoError::KeyDerivation),
    {
        let bytes = password.as_bytes_vec();
        match argon2id_hash(ARGON2_M_COST, ARGON2_T_COST, ARGON2_P_COST, bytes.as_slice(), salt) {
            Ok(key) => Ok(key),
            Err(_) => Err(CryptoError::KeyDerivation),
        }
    }

    /// A cipher whose key is derived from `password` and `salt`.
    pub fn new_with_password(password: &str, salt: &[u8]) -> (r: Result<Self, CryptoError>)
        ensures
            r is Ok <==> derivable(password.spec_bytes(), salt@),
            r is Ok ==> r->Ok_0@ == derived_key(password.spec_bytes(), salt@),
            r is Err ==> r == Err::<Self, CryptoError>(CryptoError::KeyDerivation),
    {
        let key = Self::derive_key_from_password(password, salt)?;
        Ok(Encryptor { key })
    }

    /// Seals `plaintext` under a fresh random nonce and returns the nonce
    /// followed by the ciphertext and its tag.
    pub fn encrypt(&self, plaintext: &[u8]) -> (r: Result<Vec<u8>, CryptoError>)
        ensures
            r is Ok <==> plaintext@.len() <= MAX_PLAINTEXT_LEN,
            r is Ok ==> opens_to(self@, r->Ok_0@, plaintext@),
            r is Err ==> r == Err::<Vec<u8>, CryptoError>(CryptoError::MessageTooLong),
    {
        if plaintext.len() as u64 > MAX_PLAINTEXT_LEN {
            return Err(CryptoError::MessageTooLong);
        }
        let nonce = random_nonce();
        let sealed = match aes256gcm_encrypt(&self.key, &nonce, plaintext) {
            Ok(c) => c,
            Err(_) => return Err(CryptoError::MessageTooLong),
        };
        let mut result: Vec<u8> = Vec::new();
        result.extend_from_slice(&nonce);
        result.extend_from_slice(sealed.as_slice());
        assert(result@.subrange(0, NONCE_LEN as int) =~= nonce@);
        assert(result@.subrange(NONCE_LEN as int, result@.len() as int) =~= sealed@);
        Ok(result)
    }

    /// Splits off the nonce, checks the tag and returns the plaintext. Every
    /// input that is not a sealing under this key gives the same error, so a
    /// wrong key cannot be told apart from altered data, and no partial
    /// plaintext is ever returned.
    pub fn decrypt(&self, ciphertext: &[u8]) -> (r: Result<Vec<u8>, CryptoError>)
        ensures
            ciphertext@.len() < NONCE_LEN ==> r == Err::<Vec<u8>, CryptoError>(
                CryptoError::InvalidInput,
            ),
            ciphertext@.len() >= NONCE_LEN ==> (r is Ok || r == Err::<Vec<u8>, CryptoError>(
                CryptoError::AuthenticationFailure,
            )),
            r is Ok ==> opens_to(self@, ciphertext@, r->Ok_0@),
            forall|m: Seq<u8>| #[trigger]
                opens_to(self@, ciphertext@, m) ==> r is Ok && r->Ok_0@ == m,
    {
        if ciphertext.len() < NONCE_LEN {
            return Err(CryptoError::InvalidInput);
        }
        if (ciphertext.len() - NONCE_LEN) as u64 > MAX_PLAINTEXT_LEN + TAG_LEN as u64 {
            return Err(CryptoError::AuthenticationFailure);
        }
        let nonce = slice_subrange(ciphertext, 0, NONCE_LEN);
        let body = slice_subrange(ciphertext, NONCE_LEN, ciphertext.len());
        match aes256gcm_decrypt(&self.key, nonce, body) {
            Ok(p) => Ok(p),
            Err(_) => Err(CryptoError::AuthenticationFailure),
        }
    }

    /// 32 bytes from the operating system's secure random generator.
    pub fn generate_salt() -> (r: [u8; 32]) {
        random_salt()
    }
}

} // verus!
