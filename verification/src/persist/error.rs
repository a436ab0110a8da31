//! Why a document could not be stored or loaded, and at which path.

use vstd::prelude::*;
use vstd::std_specs::convert::FromSpecImpl;
use vstd::string::StringExecFns;
use crate::system::Failure;
use crate::system::FailureKind;

verus! {

/// A failure of the store, with the path of the document.
#[derive(Debug)]
pub struct Error {
    pub cause: Cause,
    pub path: String,
}

/// What went wrong with a document.
#[derive(Debug)]
pub enum Cause {
    /// The bytes are there but are no document of the expected form; the
    /// text says what is wrong with them.
    Invalid(String),
    /// The path does not exist.
    Missing(Failure),
    /// Any other failure of the platform.
    System(Failure),
}

/// The three kinds of cause.
#[derive(Debug, Clone, Copy, PartialEq, Eq, Structural)]
pub enum Kind {
    Invalid,
    Missing,
    System,
}

impl Cause {
    /// The kind of the cause.
    pub open spec fn kind(self) -> Kind {
        match self {
            Cause::Invalid(_) => Kind::Invalid,
            Cause::Missing(_) => Kind::Missing,
            Cause::System(_) => Kind::System,
        }
    }

    /// The cause that stands for a failure of the platform: `Missing` where
    /// the path was not found, `System` otherwise.
    pub open spec fn of(failure: Failure) -> Cause {
        match failure.kind {
            FailureKind::NotFound => Cause::Missing(failure),
            FailureKind::Other => Cause::System(failure),
        }
    }
}

impl From<Failure> for Cause {
    fn from(failure: Failure) -> (cause: Self) {
        match failure.kind {
            FailureKind::NotFound => Cause::Missing(failure),
            FailureKind::Other => Cause::System(failure),
        }
    }
}

impl FromSpecImpl<Failure> for Cause {
    open spec fn obeys_from_spec() -> bool {
        true
    }

    open spec fn from_spec(failure: Failure) -> Self {
        Cause::of(failure)
    }
}

/// What `context` makes of the platform's outcome at `path`: a success
/// stays what it is, a failure becomes an error with its cause and the
/// path.
pub open spec fn reported<T>(outcome: Result<T, Failure>, path: Seq<char>, result: Result<T, Error>) -> bool {
    match outcome {
        Ok(value) => result == Ok::<T, Error>(value),
        Err(failure) => result matches Err(error) && error.cause == Cause::of(failure)
            && error.path@ == path,
    }
}

/// What `invalid` makes of a refusal at `path`.
pub open spec fn refused<T>(path: Seq<char>, result: Result<T, Error>) -> bool {
    result matches Err(error) && error.cause is Invalid && error.path@ == path
}

/// Results that can be given the path of the document they are about.
pub trait Context<T> {
    /// What `context` returns for `path`.
    spec fn in_context(self, path: Seq<char>, result: Result<T, Error>) -> bool;

    /// The result with every failure turned into an error at `path`.
    fn context(self, path: &str) -> (result: Result<T, Error>)
        ensures
            self.in_context(path@, result),
    ;
}

impl<T> Context<T> for Result<T, Failure> {
    open spec fn in_context(self, path: Seq<char>, result: Result<T, Error>) -> bool {
        reported(self, path, result)
    }

    fn context(self, path: &str) -> (result: Result<T, Error>) {
        match self {
            Ok(value) => Ok(value),
            Err(failure) => Err(Error { cause: Cause::from(failure), path: path.to_owned() }),
        }
    }
}

/// The error for a document at `path` that is not of the expected form.
pub fn invalid(words: String, path: &str) -> (error: Error)
    ensures
        error.cause == Cause::Invalid(words),
        error.path@ == path@,
{
    Error { cause: Cause::Invalid(words), path: path.to_owned() }
}

impl Error {
    /// The error in words: the path, then what went wrong there.
    pub open spec fn message_text(self) -> Seq<char> {
        match self.cause {
            Cause::Invalid(words) => self.path@ + ": "@ + words@,
            Cause::Missing(_) => self.path@ + " not found"@,
            Cause::System(failure) => self.path@ + ": "@ + failure.message@,
        }
    }

    /// The error in words: the path, then what went wrong there.
    pub fn message(&self) -> (text: String)
        ensures
            text@ == self.message_text(),
    {
        let mut text = self.path.clone();
        match &self.cause {
            Cause::Invalid(words) => {
                text.append(": ");
                text.append(words.as_str());
            },
            Cause::Missing(_) => {
                text.append(" not found");
            },
            Cause::System(failure) => {
                text.append(": ");
                text.append(failure.message.as_str());
            },
        }
        text
    }
}

} // verus!
