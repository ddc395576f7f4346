use crate::error::FormatError;
use crate::format::{container, parse_spec};
use vstd::prelude::*;

verus! {

/// The container operations used by the command-line tool.
pub struct FileHandler;

impl FileHandler {
    /// Lays out a container around `encrypted_data` (see
    /// `format::create_encrypted_file`).
    pub fn create_encrypted_file(salt: &[u8], encrypted_data: &[u8]) -> (r: Vec<u8>)
        ensures
            r@ == container(salt@, encrypted_data@),
    {
        crate::format::create_encrypted_file(salt, encrypted_data)
    }

    /// Reads a container back into its salt and payload (see
    /// `format::parse_encrypted_file`).
    pub fn parse_encrypted_file(data: &[u8]) -> (r: Result<([u8; 32], Vec<u8>), FormatError>)
        ensures
            match r {
                Ok((salt, payload)) => parse_spec(data@) == Ok::<(Seq<u8>, Seq<u8>), FormatError>(
                    (salt@, payload@),
                ),
                Err(e) => parse_spec(data@) == Err::<(Seq<u8>, Seq<u8>), FormatError>(e),
            },
    {
        crate::format::parse_encrypted_file(data)
    }
}

} // verus!
