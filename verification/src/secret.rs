//! Passwords kept by the operating system's secure storage.

use vstd::prelude::*;
use rand_core::OsRng;
use rand_core::RngCore;
use crate::passphrase::Passphrase;
use crate::platform::secret::create;
use crate::platform::secret::lookup;
use crate::platform::Error;
use crate::text::is_hex_lower;
use crate::text::to_hex;

verus! {

/// A reference to a password in the secure storage: the name under which the
/// storage holds it.
#[derive(Debug)]
pub struct Secret {
    pub name: String,
}

impl View for Secret {
    type V = Seq<char>;

    open spec fn view(&self) -> Seq<char> {
        self.name@
    }
}

/// A name as `create` makes them: 32 digits of lowercase hexadecimal.
pub open spec fn is_reference(name: Seq<char>) -> bool {
    name.len() == 32 && is_hex_lower(name)
}

/// `rand_core::OsRng`'s `try_fill_bytes` on the buffer: the buffer filled
/// from the system's random source, or the words of the crate's error where
/// the source failed. Nothing holds of the bytes but their number.
#[verifier::external_body]
fn random_bytes(buffer: Vec<u8>) -> (bytes: Result<Vec<u8>, String>)
    ensures
        bytes matches Ok(filled) ==> filled@.len() == buffer@.len(),
{
    let mut buffer = buffer;
    match OsRng.try_fill_bytes(&mut buffer) {
        Ok(()) => Ok(buffer),
        Err(error) => Err(error.to_string()),
    }
}

/// The number of random bytes in a reference.
pub const REFERENCE_BYTES: usize = 16;

impl Secret {
    /// The reference that `bytes` name.
    pub fn named(bytes: &[u8]) -> (secret: Secret)
        ensures
            secret@ == crate::text::hex_lower(bytes@),
            bytes@.len() == REFERENCE_BYTES ==> is_reference(secret@),
    {
        Secret { name: to_hex(bytes) }
    }

    /// Stores `value` in the secure storage under a fresh random name and
    /// returns the reference. Both the random source and the storage may
    /// fail; a reference that comes back is 32 digits of lowercase
    /// hexadecimal.
    pub fn create(value: Passphrase) -> (made: Result<Secret, Error>)
        ensures
            made matches Ok(secret) ==> is_reference(secret@),
    {
        let bytes = match random_bytes(vec![0u8; REFERENCE_BYTES]) {
            Ok(bytes) => bytes,
            Err(words) => {
                return Err(Error::System(words));
            },
        };
        let secret = Secret::named(bytes.as_slice());
        match create(secret.name.as_str(), value) {
            Ok(()) => Ok(secret),
            Err(error) => Err(error),
        }
    }

    /// Fetches the password from the secure storage, which may fail.
    pub fn lookup(&self) -> (value: Result<Passphrase, Error>) {
        lookup(self.name.as_str())
    }
}

} // verus!
