use crate::error::FormatError;
use vstd::prelude::*;
use vstd::slice::{slice_subrange, slice_to_vec};

verus! {

/// Version byte written by this library and the only one it reads.
pub const FORMAT_VERSION: u8 = 1;

/// Length of the salt stored in a container.
pub const SALT_LEN: usize = 32;

/// Magic (4 bytes), version (1 byte) and salt (32 bytes).
pub const HEADER_LEN: usize = 37;

/// The container tag, "ENCR".
pub open spec fn magic_bytes() -> Seq<u8> {
    seq![0x45u8, 0x4Eu8, 0x43u8, 0x52u8]
}

/// The container holding `salt` and `payload`: tag, version, salt, payload.
pub open spec fn container(salt: Seq<u8>, payload: Seq<u8>) -> Seq<u8> {
    magic_bytes() + seq![FORMAT_VERSION] + salt + payload
}

/// What decoding `data` yields: the salt and the payload, or why it is refused.
pub open spec fn parse_spec(data: Seq<u8>) -> Result<(Seq<u8>, Seq<u8>), FormatError> {
    if data.len() < HEADER_LEN {
        Err(FormatError::TooShort)
    } else if data.subrange(0, 4) != magic_bytes() {
        Err(FormatError::BadMagic)
    } else if data[4] != FORMAT_VERSION {
        Err(FormatError::UnsupportedVersion)
    } else {
        Ok((data.subrange(5, HEADER_LEN as int), data.subrange(HEADER_LEN as int, data.len() as int)))
    }
}

/// Lays out a container: the tag, the version byte, `salt`, then
/// `encrypted_data` verbatim.
pub fn create_encrypted_file(salt: &[u8], encrypted_data: &[u8]) -> (r: Vec<u8>)
    ensures
        r@ == container(salt@, encrypted_data@),
{
    let mut result: Vec<u8> = Vec::new();
    result.push(0x45u8);
    result.push(0x4Eu8);
    result.push(0x43u8);
    result.push(0x52u8);
    result.push(FORMAT_VERSION);
    result.extend_from_slice(salt);
    result.extend_from_slice(encrypted_data);
    assert(result@ =~= container(salt@, encrypted_data@));
    result
}

/// Reads a container back into its salt and its payload. Only the layout is
/// checked here; the payload is authenticated when it is decrypted.
pub fn parse_encrypted_file(data: &[u8]) -> (r: Result<([u8; 32], Vec<u8>), FormatError>)
    ensures
        match r {
            Ok((salt, payload)) => parse_spec(data@) == Ok::<(Seq<u8>, Seq<u8>), FormatError>(
                (salt@, payload@),
            ),
            Err(e) => parse_spec(data@) == Err::<(Seq<u8>, Seq<u8>), FormatError>(e),
        },
{
    if data.len() < HEADER_LEN {
        return Err(FormatError::TooShort);
    }
    if data[0] != 0x45u8 || data[1] != 0x4Eu8 || data[2] != 0x43u8 || data[3] != 0x52u8 {
        assert(data@.subrange(0, 4)[0] == data@[0]);
        assert(data@.subrange(0, 4)[1] == data@[1]);
        assert(data@.subrange(0, 4)[2] == data@[2]);
        assert(data@.subrange(0, 4)[3] == data@[3]);
        return Err(FormatError::BadMagic);
    }
    assert(data@.subrange(0, 4) =~= magic_bytes());
    if data[4] != FORMAT_VERSION {
        return Err(FormatError::UnsupportedVersion);
    }
    let mut salt = [0u8; 32];
    let mut i: usize = 0;
    while i < SALT_LEN
        invariant
            i <= SALT_LEN,
            data@.len() >= HEADER_LEN,
            forall|j: int| 0 <= j < i ==> salt@[j] == data@[5 + j],
        decreases SALT_LEN - i,
    {
        salt[i] = data[5 + i];
        i = i + 1;
    }
    assert(salt@ =~= data@.subrange(5, HEADER_LEN as int));
    let payload = slice_to_vec(slice_subrange(data, HEADER_LEN, data.len()));
    Ok((salt, payload))
}

/// Decoding a container gives back the salt and the payload it was made
/// from, whenever the salt has the stored length.
pub proof fn lemma_parse_container(salt: Seq<u8>, payload: Seq<u8>)
    requires
        salt.len() == SALT_LEN,
    ensures
        parse_spec(container(salt, payload)) == Ok::<(Seq<u8>, Seq<u8>), FormatError>(
            (salt, payload),
        ),
{
    let c = container(salt, payload);
    assert(c.subrange(0, 4) =~= magic_bytes());
    assert(c.subrange(5, HEADER_LEN as int) =~= salt);
    assert(c.subrange(HEADER_LEN as int, c.len() as int) =~= payload);
}

} // verus!
