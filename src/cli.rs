use crate::naming::{
    decrypted_dir_spec, decrypted_name_spec, default_decrypted_dir, default_encrypted_dir,
    decrypted_file_name, encrypted_file_name, encrypted_name_spec,
};
use vstd::prelude::*;

verus! {

/// The tool's command line: one of four operations.
pub struct Cli {
    pub command: Commands,
}

/// The four operations, each with an input path and an optional output path.
pub enum Commands {
    /// Encrypt a file.
    Encrypt { input: String, output: Option<String> },
    /// Decrypt a file.
    Decrypt { input: String, output: Option<String> },
    /// Encrypt all files in a directory, keeping its structure.
    EncryptDir { input: String, output: Option<String> },
    /// Decrypt all ".encrypted" files in a directory, keeping its structure.
    DecryptDir { input: String, output: Option<String> },
}

/// Where an operation writes: the given output, or the default that the
/// naming rules derive from the input.
pub open spec fn output_path_spec(c: Commands) -> Seq<char> {
    match c {
        Commands::Encrypt { input, output } => match output {
            Some(o) => o@,
            None => encrypted_name_spec(input@),
        },
        Commands::Decrypt { input, output } => match output {
            Some(o) => o@,
            None => decrypted_name_spec(input@),
        },
        Commands::EncryptDir { input, output } => match output {
            Some(o) => o@,
            None => encrypted_name_spec(input@),
        },
        Commands::DecryptDir { input, output } => match output {
            Some(o) => o@,
            None => decrypted_dir_spec(input@),
        },
    }
}

impl Commands {
    /// The path the operation writes to.
    pub fn output_path(&self) -> (r: String)
        ensures
            r@ == output_path_spec(*self),
    {
        match self {
            Commands::Encrypt { input, output } => match output {
                Some(o) => o.clone(),
                None => encrypted_file_name(input.as_str()),
            },
            Commands::Decrypt { input, output } => match output {
                Some(o) => o.clone(),
                None => decrypted_file_name(input.as_str()),
            },
            Commands::EncryptDir { input, output } => match output {
                Some(o) => o.clone(),
                None => default_encrypted_dir(input.as_str()),
            },
            Commands::DecryptDir { input, output } => match output {
                Some(o) => o.clone(),
                None => default_decrypted_dir(input.as_str()),
            },
        }
    }

    /// The path the operation reads from.
    pub fn input_path(&self) -> (r: &str)
        ensures
            r@ == match *self {
                Commands::Encrypt { input, .. } => input@,
                Commands::Decrypt { input, .. } => input@,
                Commands::EncryptDir { input, .. } => input@,
                Commands::DecryptDir { input, .. } => input@,
            },
    {
        match self {
            Commands::Encrypt { input, .. } => input.as_str(),
            Commands::Decrypt { input, .. } => input.as_str(),
            Commands::EncryptDir { input, .. } => input.as_str(),
            Commands::DecryptDir { input, .. } => input.as_str(),
        }
    }
}

} // verus!
