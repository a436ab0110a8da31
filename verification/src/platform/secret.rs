//! The operating system's secure storage, keyed by service and name.

use vstd::prelude::*;
use keyring::Entry;
use crate::passphrase::Passphrase;
use super::Error;

verus! {

#[verifier::external_type_specification]
#[verifier::external_body]
pub struct ExEntry(Entry);

/// `keyring::Entry::new`: the entry for `service` and `user`, or the words
/// of the crate's error. Whether the store accepts the pair is the
/// platform's to say.
#[verifier::external_body]
fn entry_new(service: &str, user: &str) -> (entry: Result<Entry, String>) {
    Entry::new(service, user).map_err(|error| error.to_string())
}

/// `keyring::Entry::set_password`: stores `password` under the entry, or
/// gives the words of the crate's error. What the store answers depends on
/// the platform.
#[verifier::external_body]
fn entry_set_password(entry: &Entry, password: &str) -> (done: Result<(), String>) {
    entry.set_password(password).map_err(|error| error.to_string())
}

/// `keyring::Entry::get_password`: the password stored under the entry, or
/// the words of the crate's error. What the store answers depends on the
/// platform.
#[verifier::external_body]
fn entry_get_password(entry: &Entry) -> (password: Result<String, String>) {
    entry.get_password().map_err(|error| error.to_string())
}

/// The words with which the store refused, if it did: at the making of the
/// entry or at the use of it.
pub open spec fn refusal<T>(answer: Result<Result<T, String>, String>) -> Option<Seq<char>> {
    match answer {
        Ok(Ok(_)) => None,
        Ok(Err(words)) => Some(words@),
        Err(words) => Some(words@),
    }
}

/// What `create` returns for what the store answered: success only if the
/// entry was made and the password stored; otherwise the store's words.
pub fn stored(answer: Result<Result<(), String>, String>) -> (done: Result<(), Error>)
    ensures
        match done {
            Ok(_) => refusal(answer) is None,
            Err(Error::System(text)) => refusal(answer) == Some(text@),
        },
{
    match answer {
        Ok(Ok(())) => Ok(()),
        Ok(Err(words)) => Err(Error::System(words)),
        Err(words) => Err(Error::System(words)),
    }
}

/// What `lookup` returns for what the store answered: the password that the
/// store gave, or the store's words.
pub fn fetched(answer: Result<Result<String, String>, String>) -> (value: Result<Passphrase, Error>)
    ensures
        match value {
            Ok(passphrase) => answer matches Ok(Ok(text)) && passphrase@ == text@,
            Err(Error::System(text)) => refusal(answer) == Some(text@),
        },
{
    match answer {
        Ok(Ok(text)) => Ok(Passphrase::new(text)),
        Ok(Err(words)) => Err(Error::System(words)),
        Err(words) => Err(Error::System(words)),
    }
}

/// Stores `value` in the secure storage under `name`. Success is the
/// store's to give: whatever it answers, `stored` says what comes back.
pub fn create(name: &str, value: Passphrase) -> (done: Result<(), Error>) {
    let answer = match entry_new("signet", name) {
        Ok(entry) => Ok(entry_set_password(&entry, value.as_str())),
        Err(words) => Err(words),
    };
    stored(answer)
}

/// Fetches what the secure storage holds under `name`. Whatever the store
/// answers, `fetched` says what comes back.
pub fn lookup(name: &str) -> (value: Result<Passphrase, Error>) {
    let answer = match entry_new("signet", name) {
        Ok(entry) => Ok(entry_get_password(&entry)),
        Err(words) => Err(words),
    };
    fetched(answer)
}

} // verus!
