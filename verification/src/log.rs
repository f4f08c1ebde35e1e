//! Where a task's session log lives, relative to the tool's base
//! directory: general work sessions under `work/`, a named task's
//! sessions under `tasks/<mnemonic>/`. Finding the base directory itself
//! is the caller's business.

use vstd::prelude::*;

verus! {

/// Declares `std::io::Error` so that [`FileError`] can carry an I/O
/// failure through opaquely; nothing is assumed of its contents.
#[verifier::external_type_specification]
#[verifier::external_body]
pub struct ExIoError(std::io::Error);

/// Why a log file could not be reached: an I/O failure, carried
/// verbatim, or a base directory that does not exist.
#[derive(Debug)]
pub enum FileError {
    IoError(std::io::Error),
    PathNotFound,
}

impl vstd::std_specs::convert::FromSpecImpl<std::io::Error> for FileError {
    open spec fn obeys_from_spec() -> bool {
        true
    }

    open spec fn from_spec(error: std::io::Error) -> FileError {
        FileError::IoError(error)
    }
}

impl From<std::io::Error> for FileError {
    fn from(error: std::io::Error) -> (r: FileError) {
        FileError::IoError(error)
    }
}

/// The session log path for a task, relative to the tool's base
/// directory.
pub open spec fn spec_file_path(mnemonic: Option<Seq<char>>) -> Seq<char> {
    match mnemonic {
        None => "work/sessions.log"@,
        Some(m) => "tasks/"@ + m + "/sessions.log"@,
    }
}

/// Computes the session log path for a task — the general work log when
/// no mnemonic is given — relative to the tool's base directory.
pub fn get_file_path(mnemonic: Option<&str>) -> (r: String)
    ensures
        r@ == spec_file_path(mnemonic.deep_view()),
{
    match mnemonic {
        None => String::from_str("work/sessions.log"),
        Some(m) => {
            let path = String::from_str("tasks/");
            let path = path.concat(m);
            path.concat("/sessions.log")
        },
    }
}

} // verus!
