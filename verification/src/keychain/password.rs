//! The three ways a keychain comes by its unlock string.

use vstd::prelude::*;
use argon2::password_hash::PasswordHash;
use argon2::password_hash::PasswordHasher;
use argon2::password_hash::PasswordVerifier;
use argon2::password_hash::SaltString;
use argon2::Argon2;
use rand_core::OsRng;
use crate::passphrase::Passphrase;
use crate::secret::is_reference;
use crate::secret::Secret;
use crate::system::Failure;
use crate::system::System;

verus! {

/// How a keychain's unlock string is kept.
#[derive(Debug)]
pub enum Password {
    /// In the secure storage, under this reference.
    Secret(Secret),
    /// Nowhere: only a salted hash of it is kept.
    Static(Static),
    /// In the clear. For tests and automation only.
    String(String),
}

/// A salted Argon2 hash of an unlock string, in the PHC string format.
#[derive(Debug)]
pub struct Static {
    pub hash: String,
}

/// Why a password could not be made or an unlock string not be had.
#[derive(Debug)]
pub enum Error {
    /// Hashing failed or the entry does not match the hash; the text is
    /// what Argon2 said.
    Crypto(String),
    /// A prompt, the secure storage or the random source failed; the text
    /// is what it said.
    System(String),
    /// The two entries of a new password differ.
    Mismatch,
}

/// What a password holds.
pub enum Policy {
    Secret(Seq<char>),
    Static(Seq<char>),
    String(Seq<char>),
}

impl View for Static {
    type V = Seq<char>;

    open spec fn view(&self) -> Seq<char> {
        self.hash@
    }
}

impl View for Password {
    type V = Policy;

    open spec fn view(&self) -> Policy {
        match *self {
            Password::Secret(secret) => Policy::Secret(secret@),
            Password::Static(hash) => Policy::Static(hash@),
            Password::String(text) => Policy::String(text@),
        }
    }
}

/// The first prompt of `create`.
pub open spec fn enter_prompt() -> Seq<char> {
    "enter password: "@
}

/// The second prompt of `create`.
pub open spec fn again_prompt() -> Seq<char> {
    "password again: "@
}

/// The prompt of `lookup`.
pub open spec fn unlock_prompt() -> Seq<char> {
    "password: "@
}

/// The Argon2 hash of `password` under `salt` with the crate's default
/// parameters, as a PHC string; `None` where the crate refuses the salt or
/// the password.
pub uninterp spec fn argon2_phc(password: Seq<char>, salt: Seq<char>) -> Option<Seq<char>>;

/// Whether `hash` is a PHC string that Argon2 finds `password` to match.
pub uninterp spec fn argon2_accepts(hash: Seq<char>, password: Seq<char>) -> bool;

/// `SaltString::generate` with the system's random source: a fresh salt, in
/// the crate's own text form. Nothing holds of a random salt.
#[verifier::external_body]
fn salt_generate() -> (salt: String) {
    SaltString::generate(OsRng).as_str().to_owned()
}

/// `Argon2::default().hash_password` of `password` under `salt`, which is
/// first read with `SaltString::from_b64`: the hash as a PHC string, or the
/// words of the crate's error. As the crate documents, a hash that it gives
/// for a password is one that `verify_password` finds that password to
/// match.
#[verifier::external_body]
fn argon2_hash(password: &str, salt: &str) -> (hash: Result<String, String>)
    ensures
        match hash {
            Ok(text) => argon2_phc(password@, salt@) == Some(text@) && argon2_accepts(
                text@,
                password@,
            ),
            Err(_) => argon2_phc(password@, salt@) is None,
        },
{
    let salt = SaltString::from_b64(salt).map_err(|error| error.to_string())?;
    let hash = Argon2::default().hash_password(password.as_bytes(), &salt);
    hash.map(|hash| hash.to_string()).map_err(|error| error.to_string())
}

/// `Argon2::default().verify_password` of `password` against `hash`, which
/// is first read with `PasswordHash::new`: success where the password
/// matches, else the words of the crate's error.
#[verifier::external_body]
fn argon2_verify(password: &str, hash: &str) -> (matched: Result<(), String>)
    ensures
        matched is Ok <==> argon2_accepts(hash@, password@),
{
    let hash = PasswordHash::new(hash).map_err(|error| error.to_string())?;
    Argon2::default().verify_password(password.as_bytes(), &hash).map_err(|error| error.to_string())
}

/// The Argon2 hash of `password` under `salt`, as a PHC string, which
/// `password` matches.
pub fn argon2(password: &str, salt: &str) -> (hash: Result<String, Error>)
    ensures
        match hash {
            Ok(text) => argon2_phc(password@, salt@) == Some(text@) && argon2_accepts(
                text@,
                password@,
            ),
            Err(error) => argon2_phc(password@, salt@) is None && error is Crypto,
        },
{
    match argon2_hash(password, salt) {
        Ok(text) => Ok(text),
        Err(words) => Err(Error::Crypto(words)),
    }
}

/// What comes of the two entries of a new password: the first entry if the
/// second repeats it character for character, `Mismatch` if it does not, and
/// the platform's failure if a prompt failed. The second prompt is not shown
/// after the first has failed.
pub open spec fn confirmed(
    first: Result<String, Failure>,
    second: Result<String, Failure>,
    entered: Result<Passphrase, Error>,
) -> bool {
    match first {
        Err(failure) => entered matches Err(Error::System(words)) && words@ == failure.message@,
        Ok(password) => match second {
            Err(failure) => entered matches Err(Error::System(words)) && words@
                == failure.message@,
            Ok(repeated) => if password@ == repeated@ {
                entered matches Ok(passphrase) && passphrase@ == password@
            } else {
                entered matches Err(Error::Mismatch)
            },
        },
    }
}

/// What comes of the entry at `lookup` against the kept `hash`: the entry
/// itself where Argon2 finds it to match, a `Crypto` error where it does
/// not, and the platform's failure if the prompt failed.
pub open spec fn verified(
    hash: Seq<char>,
    entry: Result<String, Failure>,
    unlocked: Result<Passphrase, Error>,
) -> bool {
    match entry {
        Err(failure) => unlocked matches Err(Error::System(words)) && words@ == failure.message@,
        Ok(password) => if argon2_accepts(hash, password@) {
            unlocked matches Ok(passphrase) && passphrase@ == password@
        } else {
            unlocked matches Err(Error::Crypto(_))
        },
    }
}

/// `hash` is an Argon2 hash of `password` under some salt, and one that
/// `password` matches.
pub open spec fn hashed(password: Seq<char>, hash: Seq<char>) -> bool {
    argon2_accepts(hash, password) && exists|salt: Seq<char>|
        argon2_phc(password, salt) == Some(hash)
}

/// `unlocked` is what `verified` allows for some answer of the platform to
/// the prompt of `lookup`.
pub open spec fn unlocks<S: System>(hash: Seq<char>, unlocked: Result<Passphrase, Error>) -> bool {
    exists|entry: Result<String, Failure>|
        S::prompt_gives(unlock_prompt(), entry) && verified(hash, entry, unlocked)
}

/// Asks for a new password twice and returns it if both entries agree.
pub fn request<S: System>() -> (entered: Result<Passphrase, Error>)
    ensures
        exists|first: Result<String, Failure>, second: Result<String, Failure>|
            {
                &&& S::prompt_gives(enter_prompt(), first)
                &&& first is Ok ==> S::prompt_gives(again_prompt(), second)
                &&& confirmed(first, second, entered)
            },
{
    let first = S::prompt("enter password: ");
    let password = match first {
        Ok(password) => Passphrase::new(password),
        Err(failure) => {
            let entered = Err(Error::System(failure.message));
            assert(S::prompt_gives(enter_prompt(), first) && confirmed(first, first, entered));
            return entered;
        },
    };
    let second = S::prompt("password again: ");
    let entered = match second {
        Ok(repeated) => {
            let repeated = Passphrase::new(repeated);
            if password.same(&repeated) {
                Ok(password)
            } else {
                Err(Error::Mismatch)
            }
        },
        Err(failure) => Err(Error::System(failure.message)),
    };
    assert(S::prompt_gives(again_prompt(), second) && confirmed(first, second, entered));
    entered
}

impl Static {
    /// Hashes `password` under a fresh random salt and keeps only the hash.
    fn create(password: Passphrase) -> (made: Result<Static, Error>)
        ensures
            match made {
                Ok(kept) => hashed(password@, kept@),
                Err(error) => error is Crypto,
            },
    {
        let salt = salt_generate();
        match argon2(password.as_str(), salt.as_str()) {
            Ok(hash) => {
                assert(argon2_phc(password@, salt@) == Some(hash@));
                Ok(Static { hash })
            },
            Err(error) => Err(error),
        }
    }

    /// Asks for the password once and returns the entry if it matches the
    /// kept hash.
    fn lookup<S: System>(&self) -> (unlocked: Result<Passphrase, Error>)
        ensures
            unlocks::<S>(self@, unlocked),
    {
        let entry = S::prompt("password: ");
        let unlocked = match entry {
            Ok(password) => {
                let password = Passphrase::new(password);
                match argon2_verify(password.as_str(), self.hash.as_str()) {
                    Ok(()) => Ok(password),
                    Err(words) => Err(Error::Crypto(words)),
                }
            },
            Err(failure) => Err(Error::System(failure.message)),
        };
        assert(S::prompt_gives(unlock_prompt(), entry) && verified(self@, entry, unlocked));
        unlocked
    }
}

impl Password {
    /// Asks for a new password twice. If the entries agree, keeps it in the
    /// secure storage (`secret`) or as a salted hash; if they differ, fails
    /// with `Mismatch` and keeps nothing.
    pub fn create<S: System>(secret: bool) -> (made: Result<Password, Error>)
        ensures
            Password::asked::<S>(secret, made),
    {
        let entered = request::<S>();
        let ghost (first, second) = choose|first: Result<String, Failure>, second: Result<String, Failure>|
            {
                &&& S::prompt_gives(enter_prompt(), first)
                &&& first is Ok ==> S::prompt_gives(again_prompt(), second)
                &&& confirmed(first, second, entered)
            };
        let made = match entered {
            Ok(password) => Password::keep(secret, password),
            Err(error) => Err(error),
        };
        assert(Password::created(secret, first, second, made));
        made
    }

    /// `made` is what `created` allows for some answers of the platform to
    /// the two prompts of `create`, the second of which is shown only after
    /// the first was answered.
    pub open spec fn asked<S: System>(secret: bool, made: Result<Password, Error>) -> bool {
        exists|first: Result<String, Failure>, second: Result<String, Failure>|
            {
                &&& S::prompt_gives(enter_prompt(), first)
                &&& first is Ok ==> S::prompt_gives(again_prompt(), second)
                &&& Password::created(secret, first, second, made)
            }
    }

    /// What `create` may return for what was entered. Failed prompts and
    /// differing entries fail as `confirmed` says. Agreeing entries give a
    /// `Secret` with a well-formed reference or a `Static` whose hash is an
    /// Argon2 hash of the entry, which the entry matches; they fail with
    /// `System` where the secure storage or the random source fails, with
    /// `Crypto` where hashing does.
    pub open spec fn created(
        secret: bool,
        first: Result<String, Failure>,
        second: Result<String, Failure>,
        made: Result<Password, Error>,
    ) -> bool {
        match (first, second) {
            (Ok(password), Ok(repeated)) if password@ == repeated@ => Password::kept(
                secret,
                password@,
                made,
            ),
            (Ok(password), Ok(repeated)) => made matches Err(Error::Mismatch),
            (Ok(password), Err(failure)) => made matches Err(Error::System(words)) && words@
                == failure.message@,
            (Err(failure), _) => made matches Err(Error::System(words)) && words@
                == failure.message@,
        }
    }

    /// What `keep` may return for `password`.
    pub open spec fn kept(secret: bool, password: Seq<char>, made: Result<Password, Error>) -> bool {
        match made {
            Ok(Password::Secret(reference)) => secret && is_reference(reference@),
            Ok(Password::Static(kept)) => !secret && hashed(password, kept@),
            Ok(Password::String(_)) => false,
            Err(Error::System(_)) => secret,
            Err(Error::Crypto(_)) => !secret,
            Err(Error::Mismatch) => false,
        }
    }

    /// Puts `password` into the secure storage (`secret`) or hashes it.
    pub fn keep(secret: bool, password: Passphrase) -> (made: Result<Password, Error>)
        ensures
            Password::kept(secret, password@, made),
    {
        if secret {
            match Secret::create(password) {
                Ok(reference) => Ok(Password::Secret(reference)),
                Err(error) => Err(Error::System(error.message())),
            }
        } else {
            match Static::create(password) {
                Ok(kept) => Ok(Password::Static(kept)),
                Err(error) => Err(error),
            }
        }
    }

    /// The unlock string: from the secure storage, from the terminal and
    /// checked against the kept hash, or the plain text itself.
    pub fn lookup<S: System>(&self) -> (unlocked: Result<Passphrase, Error>)
        ensures
            self@ is Secret ==> (unlocked matches Err(error) ==> error is System),
            self@ matches Policy::Static(hash) ==> unlocks::<S>(hash, unlocked),
            self@ matches Policy::String(text) ==> unlocked matches Ok(passphrase) && passphrase@
                == text,
    {
        match self {
            Password::Secret(reference) => match reference.lookup() {
                Ok(passphrase) => Ok(passphrase),
                Err(error) => Err(Error::System(error.message())),
            },
            Password::Static(kept) => kept.lookup::<S>(),
            Password::String(text) => Ok(Passphrase::new(text.clone())),
        }
    }

    /// A password kept in the clear.
    pub fn insecure(string: &str) -> (password: Password)
        ensures
            password@ == Policy::String(string@),
    {
        Password::String(string.to_owned())
    }
}

impl Error {
    /// The error in words.
    pub open spec fn message_text(self) -> Seq<char> {
        match self {
            Error::Crypto(words) => words@,
            Error::System(words) => words@,
            Error::Mismatch => "password mismatch"@,
        }
    }

    /// The error in words.
    pub fn message(&self) -> (text: String)
        ensures
            text@ == self.message_text(),
    {
        match self {
            Error::Crypto(words) => words.clone(),
            Error::System(words) => words.clone(),
            Error::Mismatch => "password mismatch".to_owned(),
        }
    }
}

/// A static password that was made from an entry is unlocked by the same
/// entry, which is what `lookup` then returns. An entry that Argon2 does
/// not find to match the kept hash fails with `Crypto`.
pub proof fn law_static_round_trip(
    first: Result<String, Failure>,
    second: Result<String, Failure>,
    made: Result<Password, Error>,
    entry: Result<String, Failure>,
    unlocked: Result<Passphrase, Error>,
)
    requires
        Password::created(false, first, second, made),
        made matches Ok(Password::Static(kept)) && verified(kept@, entry, unlocked),
        entry is Ok,
    ensures
        first is Ok,
        second is Ok,
        first->Ok_0@ == second->Ok_0@,
        entry->Ok_0@ == first->Ok_0@ ==> (unlocked matches Ok(passphrase) && passphrase@
            == first->Ok_0@),
        !argon2_accepts(made->Ok_0->Static_0@, entry->Ok_0@) ==> (unlocked matches Err(
            Error::Crypto(_),
        )),
{
}

} // verus!
