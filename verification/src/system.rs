//! The platform seam: every file, directory and terminal primitive the vault
//! needs, behind one trait.

use vstd::prelude::*;
use vstd::std_specs::convert::FromSpecImpl;

verus! {

/// Why a platform primitive failed, as far as the vault tells failures apart.
#[derive(Clone, Copy, Debug, PartialEq, Eq, Structural)]
pub enum FailureKind {
    /// The path does not exist.
    NotFound,
    /// Anything else.
    Other,
}

/// The failure of a platform primitive.
#[derive(Debug)]
pub struct Failure {
    pub kind: FailureKind,
    pub message: String,
}

/// Where data is read from.
#[derive(Clone, Debug)]
pub enum Input {
    File(String),
    Stdin,
}

impl From<String> for Input {
    fn from(path: String) -> (input: Self) {
        Input::File(path)
    }
}

impl FromSpecImpl<String> for Input {
    open spec fn obeys_from_spec() -> bool {
        true
    }

    open spec fn from_spec(path: String) -> Self {
        Input::File(path)
    }
}

impl std::str::FromStr for Input {
    type Err = std::convert::Infallible;

    /// The file at `path`.
    fn from_str(path: &str) -> (input: Result<Self, Self::Err>)
        ensures
            input matches Ok(Input::File(file)) && file@ == path@,
    {
        Ok(Input::File(path.to_owned()))
    }
}

/// The blocking primitives of the platform. For each primitive an
/// implementation may say which outcomes it gives for which arguments; one
/// that says nothing allows every outcome. Callers state their own results
/// over those outcomes.
pub trait System {
    /// `init` may answer `outcome` when asked to create `path` with `data`.
    open spec fn init_gives(path: Seq<char>, data: Seq<u8>, outcome: Result<(), Failure>) -> bool {
        true
    }

    /// `sync` may answer `outcome` when asked to replace `path` with `data`.
    open spec fn sync_gives(path: Seq<char>, data: Seq<u8>, outcome: Result<(), Failure>) -> bool {
        true
    }

    /// `mkdir` may answer `outcome` when asked to create the directory `path`.
    open spec fn mkdir_gives(path: Seq<char>, outcome: Result<(), Failure>) -> bool {
        true
    }

    /// `read` may answer `outcome` when asked to read `input`.
    open spec fn read_gives(input: Input, outcome: Result<Vec<u8>, Failure>) -> bool {
        true
    }

    /// `write` may answer `outcome` when asked to write `data` to `path`.
    open spec fn write_gives(path: Seq<char>, data: Seq<u8>, outcome: Result<(), Failure>) -> bool {
        true
    }

    /// `prompt` may answer `outcome` when it shows `prompt`.
    open spec fn prompt_gives(prompt: Seq<char>, outcome: Result<String, Failure>) -> bool {
        true
    }

    /// Creates the file `path` with `data`; fails if the path exists.
    fn init(path: &str, data: &[u8]) -> (outcome: Result<(), Failure>)
        ensures
            Self::init_gives(path@, data@, outcome),
    ;

    /// Replaces the content of the existing file `path` with `data`, so that a
    /// reader sees the old content or the new, never a part of either.
    fn sync(path: &str, data: &[u8]) -> (outcome: Result<(), Failure>)
        ensures
            Self::sync_gives(path@, data@, outcome),
    ;

    /// Creates the directory `path` and its parents; succeeds if it exists.
    fn mkdir(path: &str) -> (outcome: Result<(), Failure>)
        ensures
            Self::mkdir_gives(path@, outcome),
    ;

    /// Reads all of `input`.
    fn read(input: &Input) -> (outcome: Result<Vec<u8>, Failure>)
        ensures
            Self::read_gives(*input, outcome),
    ;

    /// Writes `data` to `path`, replacing what is there.
    fn write(path: &str, data: &[u8]) -> (outcome: Result<(), Failure>)
        ensures
            Self::write_gives(path@, data@, outcome),
    ;

    /// Shows `prompt` and reads one line without echo, without its newline.
    fn prompt(prompt: &str) -> (outcome: Result<String, Failure>)
        ensures
            Self::prompt_gives(prompt@, outcome),
    ;
}

} // verus!
