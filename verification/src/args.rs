//! What a command line asks for.

use vstd::prelude::*;
use crate::system::Input;

verus! {

/// The command to run.
#[derive(Clone, Debug)]
pub enum Command {
    Init(Init),
    Keys(Keys),
    Sign(Sign),
    Verify(Verify),
    /// A request in the form of another tool that needs no work.
    Compat,
}

/// Lay out a new vault.
#[derive(Clone, Debug)]
pub struct Init {
    /// Keep the password in the secure storage instead of a hash of it.
    pub secret: bool,
}

/// Work on the keys of the current keychain. A key is named by the
/// beginning of its identifier.
#[derive(Clone, Debug)]
pub enum Keys {
    Create,
    Delete(String),
    Export(String),
    Import(Input),
    Public(String),
    List,
}

/// Sign what `data` holds with `key`, in the namespace `ns`.
#[derive(Clone, Debug)]
pub struct Sign {
    pub key: String,
    pub ns: String,
    pub data: Input,
}

/// Verify the signature in the file `sig` over what `data` holds, in the
/// namespace `ns`.
#[derive(Clone, Debug)]
pub struct Verify {
    pub sig: String,
    pub ns: String,
    pub data: Input,
}

/// A command line: the root of the vault and the command.
#[derive(Debug)]
pub struct Args {
    pub store: String,
    pub command: Command,
}

} // verus!
