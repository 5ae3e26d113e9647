use crate::encoding::{text_of, to_text};
use crate::error::ErrorKind;
use crate::store::FileStore;
use vstd::prelude::*;

verus! {

/// The host that a run works on.
pub struct System {}

#[derive(Clone, Copy, Debug, PartialEq, Eq, Structural)]
pub enum SystemError {
    UnknownError,
}

impl SystemError {
    /// The category that a run reports.
    pub fn kind(&self) -> (kind: ErrorKind)
        ensures
            kind == ErrorKind::CryptoOrIO,
    {
        ErrorKind::CryptoOrIO
    }
}

/// `text` without its leading and trailing whitespace, as `str::trim`
/// returns it.
pub uninterp spec fn trimmed(text: Seq<char>) -> Seq<char>;

/// `str::trim`: the text without leading and trailing whitespace.
#[verifier::external_body]
pub(crate) fn trim(text: &str) -> (inner: String)
    ensures
        inner@ == trimmed(text@),
{
    text.trim().to_string()
}

/// The file that holds the host's name.
pub open spec fn hostname_path() -> Seq<char> {
    "/etc/hostname"@
}

/// The host's name as the files give it: the text of the hostname file,
/// trimmed; `None` where the file is missing or is not UTF-8.
pub open spec fn hostname_of(files: Map<Seq<char>, Seq<u8>>) -> Option<Seq<char>> {
    if files.contains_key(hostname_path()) {
        match text_of(files[hostname_path()]) {
            Some(text) => Some(trimmed(text)),
            None => None,
        }
    } else {
        None
    }
}

impl System {
    /// The host's name.
    pub fn hostname(files: &FileStore) -> (name: Result<String, SystemError>)
        ensures
            match name {
                Ok(n) => hostname_of(files@) == Some(n@),
                Err(_) => hostname_of(files@) is None,
            },
    {
        match files.read("/etc/hostname") {
            Some(bytes) => match to_text(bytes) {
                Some(text) => Ok(trim(text.as_str())),
                None => Err(SystemError::UnknownError),
            },
            None => Err(SystemError::UnknownError),
        }
    }
}

} // verus!
