//! Where the record is kept and which editor is used.

use vstd::prelude::*;
use crate::error::BragError;

verus! {

/// The name of the record's file, in the user's home directory.
pub const FILE_NAME: &'static str = ".brag_list.json";

/// The editor that is used where the user has named none.
pub const DEFAULT_EDITOR: &'static str = "vim";

/// The home directory under which the record is kept; without one there is
/// nowhere to keep it.
pub fn storage_home<T>(home: Option<T>) -> (r: Result<T, BragError>)
    ensures
        match home {
            Some(dir) => r == Ok::<T, BragError>(dir),
            None => r == Err::<T, BragError>(BragError::HomeDirUnavailable),
        },
{
    match home {
        Some(dir) => Ok(dir),
        None => Err(BragError::HomeDirUnavailable),
    }
}

/// The editor to run: the one the user has named, else the default one.
pub fn editor_command(named: Option<String>) -> (program: String)
    ensures
        match named {
            Some(name) => program == name,
            None => program@ == DEFAULT_EDITOR@,
        },
{
    match named {
        Some(name) => name,
        None => DEFAULT_EDITOR.to_owned(),
    }
}

} // verus!
