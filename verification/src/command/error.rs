use vstd::prelude::*;

verus! {

/// What a command fails with: the error of the part that failed.
#[derive(Debug)]
pub enum Error {
    /// A key could not be made, read, sealed, opened or used; the text is
    /// what the key library said.
    Key(String),
    Password(crate::keychain::password::Error),
    Store(crate::persist::Error),
    Vault(crate::signet::Error),
}

impl Error {
    /// The error in words.
    pub open spec fn message_text(self) -> Seq<char> {
        match self {
            Error::Key(words) => words@,
            Error::Password(error) => error.message_text(),
            Error::Store(error) => error.message_text(),
            Error::Vault(error) => error.message_text(),
        }
    }

    /// The error in words.
    pub fn message(&self) -> (text: String)
        ensures
            text@ == self.message_text(),
    {
        match self {
            Error::Key(words) => words.clone(),
            Error::Password(error) => error.message(),
            Error::Store(error) => error.message(),
            Error::Vault(error) => error.message(),
        }
    }
}

} // verus!
