use crate::crypto::{derived_key, opens_to, Encryptor, MAX_PLAINTEXT_LEN};
use crate::error::{CryptoError, EncryptorError};
use crate::crypto::{NONCE_LEN, TAG_LEN};
use crate::format::{
    create_encrypted_file, lemma_parse_container, magic_bytes, parse_encrypted_file, parse_spec,
    FORMAT_VERSION, HEADER_LEN,
};
use vstd::prelude::*;
use vstd::string::StringSliceAdditionalSpecFns;

verus! {

/// `c` is a container whose payload seals `m` under the key derived from
/// `password` and the salt stored in `c` itself.
pub open spec fn encryption_of(password: Seq<u8>, m: Seq<u8>, c: Seq<u8>) -> bool {
    &&& password.len() <= 0xFFFF_FFFF
    &&& parse_spec(c) is Ok
    &&& opens_to(derived_key(password, parse_spec(c)->Ok_0.0), parse_spec(c)->Ok_0.1, m)
}

/// Every encryption of `m` starts with the tag and the version byte and is
/// exactly header, nonce, `m` and tag long: 65 bytes for an empty message.
pub proof fn lemma_encryption_layout(password: Seq<u8>, m: Seq<u8>, c: Seq<u8>)
    requires
        encryption_of(password, m, c),
    ensures
        c.subrange(0, 5) == magic_bytes().push(FORMAT_VERSION),
        c.len() == HEADER_LEN + NONCE_LEN + m.len() + TAG_LEN,
{
    assert(c.subrange(0, 5) =~= magic_bytes().push(FORMAT_VERSION));
}

/// Encrypts `data` under `password`: a fresh salt, the derived key, a fresh
/// nonce, all wrapped in a container.
pub fn encrypt_file(password: &str, data: &[u8]) -> (r: Result<Vec<u8>, EncryptorError>)
    ensures
        r is Ok <==> password.spec_bytes().len() <= 0xFFFF_FFFF && data@.len()
            <= MAX_PLAINTEXT_LEN,
        r is Ok ==> encryption_of(password.spec_bytes(), data@, r->Ok_0@),
        password.spec_bytes().len() > 0xFFFF_FFFF ==> r == Err::<Vec<u8>, EncryptorError>(
            EncryptorError::Crypto(CryptoError::KeyDerivation),
        ),
        password.spec_bytes().len() <= 0xFFFF_FFFF && data@.len() > MAX_PLAINTEXT_LEN ==> r
            == Err::<Vec<u8>, EncryptorError>(EncryptorError::Crypto(CryptoError::MessageTooLong)),
{
    let salt = Encryptor::generate_salt();
    let encryptor = match Encryptor::new_with_password(password, &salt) {
        Ok(e) => e,
        Err(e) => return Err(EncryptorError::Crypto(e)),
    };
    let sealed = match encryptor.encrypt(data) {
        Ok(s) => s,
        Err(e) => return Err(EncryptorError::Crypto(e)),
    };
    let result = create_encrypted_file(&salt, sealed.as_slice());
    proof {
        lemma_parse_container(salt@, sealed@);
    }
    Ok(result)
}

/// Decrypts a container under `password`, deriving the key from the salt
/// the container holds. Layout errors come first; after them, any input
/// that is not an encryption under this password gives the one
/// authentication error, whatever the cause.
pub fn decrypt_file(password: &str, file_data: &[u8]) -> (r: Result<Vec<u8>, EncryptorError>)
    ensures
        parse_spec(file_data@) is Err ==> r == Err::<Vec<u8>, EncryptorError>(
            EncryptorError::Format(parse_spec(file_data@)->Err_0),
        ),
        parse_spec(file_data@) is Ok && password.spec_bytes().len() > 0xFFFF_FFFF ==> r == Err::<
            Vec<u8>,
            EncryptorError,
        >(EncryptorError::Crypto(CryptoError::KeyDerivation)),
        parse_spec(file_data@) is Ok && password.spec_bytes().len() <= 0xFFFF_FFFF
            && file_data@.len() < HEADER_LEN + 12 ==> r == Err::<Vec<u8>, EncryptorError>(
            EncryptorError::Crypto(CryptoError::InvalidInput),
        ),
        parse_spec(file_data@) is Ok && password.spec_bytes().len() <= 0xFFFF_FFFF
            && file_data@.len() >= HEADER_LEN + 12 ==> (r is Ok || r == Err::<
            Vec<u8>,
            EncryptorError,
        >(EncryptorError::Crypto(CryptoError::AuthenticationFailure))),
        r is Ok ==> encryption_of(password.spec_bytes(), r->Ok_0@, file_data@),
        forall|m: Seq<u8>| #[trigger]
            encryption_of(password.spec_bytes(), m, file_data@) ==> r is Ok && r->Ok_0@ == m,
{
    let (salt, payload) = match parse_encrypted_file(file_data) {
        Ok(parts) => parts,
        Err(e) => return Err(EncryptorError::Format(e)),
    };
    let encryptor = match Encryptor::new_with_password(password, &salt) {
        Ok(e) => e,
        Err(e) => return Err(EncryptorError::Crypto(e)),
    };
    match encryptor.decrypt(payload.as_slice()) {
        Ok(p) => Ok(p),
        Err(e) => Err(EncryptorError::Crypto(e)),
    }
}

/// Encrypts the files of one batch: a single salt and a single derived key
/// serve every file, while each file still gets a fresh nonce.
pub struct BatchEncryptor {
    salt: [u8; 32],
    encryptor: Encryptor,
    password: Ghost<Seq<u8>>,
}

impl BatchEncryptor {
    /// The password bytes the batch key was derived from.
    pub closed spec fn password(&self) -> Seq<u8> {
        self.password@
    }

    /// The salt written into every container of the batch.
    pub closed spec fn salt(&self) -> Seq<u8> {
        self.salt@
    }

    /// The shared key is the one derived from the password and the salt.
    pub closed spec fn wf(&self) -> bool {
        &&& self.password@.len() <= 0xFFFF_FFFF
        &&& self.salt@.len() == 32
        &&& self.encryptor@ == derived_key(self.password@, self.salt@)
    }

    /// Draws the batch salt and derives the batch key, once.
    pub fn new(password: &str) -> (r: Result<Self, CryptoError>)
        ensures
            r is Ok <==> password.spec_bytes().len() <= 0xFFFF_FFFF,
            r is Ok ==> r->Ok_0.wf() && r->Ok_0.password() == password.spec_bytes(),
            r is Err ==> r == Err::<Self, CryptoError>(CryptoError::KeyDerivation),
    {
        let salt = Encryptor::generate_salt();
        let encryptor = Encryptor::new_with_password(password, &salt)?;
        Ok(BatchEncryptor { salt, encryptor, password: Ghost(password.spec_bytes()) })
    }

    /// The salt shared by the batch.
    pub fn salt_bytes(&self) -> (r: [u8; 32])
        ensures
            r@ == self.salt(),
    {
        self.salt
    }

    /// Encrypts one file of the batch into a container that holds the batch
    /// salt and that decrypts under the batch password.
    pub fn encrypt_file(&self, data: &[u8]) -> (r: Result<Vec<u8>, CryptoError>)
        requires
            self.wf(),
        ensures
            r is Ok <==> data@.len() <= MAX_PLAINTEXT_LEN,
            r is Ok ==> encryption_of(self.password(), data@, r->Ok_0@),
            r is Ok ==> parse_spec(r->Ok_0@)->Ok_0.0 == self.salt(),
            r is Err ==> r == Err::<Vec<u8>, CryptoError>(CryptoError::MessageTooLong),
    {
        let sealed = self.encryptor.encrypt(data)?;
        let result = create_encrypted_file(&self.salt, sealed.as_slice());
        proof {
            lemma_parse_container(self.salt@, sealed@);
        }
        Ok(result)
    }
}

} // verus!
