use vstd::prelude::*;

verus! {

/// A failure of the platform's secure storage or random source.
#[derive(Debug)]
pub enum Error {
    System(String),
}

impl Error {
    /// The error in words: the text that the platform gave.
    pub fn message(&self) -> (text: String)
        ensures
            text@ == self->0@,
    {
        match self {
            Error::System(text) => text.clone(),
        }
    }
}

} // verus!
