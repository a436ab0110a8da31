use vstd::prelude::*;
use crate::args::Init;
use super::error::Error;
use crate::keychain::password::Password;
use crate::signet::Signet;
use crate::system::System;

verus! {

/// What `init` says when it is done.
pub open spec fn initialized_line() -> Seq<char> {
    "signet initialized!\n"@
}

/// `said` is what `init` may return in the vault at `root`: the failure to
/// come by a password, else the failure to lay out the vault, else the line
/// that says it is done.
pub open spec fn init_says<S: System>(root: Seq<char>, secret: bool, said: Result<String, Error>) -> bool {
    exists|made: Result<Password, crate::keychain::password::Error>|
        Password::asked::<S>(secret, made) && match made {
            Err(error) => said == Err::<String, Error>(Error::Password(error)),
            Ok(password) => exists|done: Result<(), crate::signet::Error>|
                Signet::<S>::initialized(root, password@, done) && match done {
                    Err(error) => said == Err::<String, Error>(Error::Vault(error)),
                    Ok(_) => said matches Ok(line) && line@ == initialized_line(),
                },
        }
}

/// Asks for a new password and lays out a new vault that it protects.
/// Returns the line to print.
pub fn init<S: System>(signet: &Signet<S>, args: Init) -> (said: Result<String, Error>)
    ensures
        init_says::<S>(signet@, args.secret, said),
{
    let made = Password::create::<S>(args.secret);
    let ghost asked = made;
    let said = match made {
        Err(error) => Err(Error::Password(error)),
        Ok(password) => {
            let ghost policy = password@;
            let done = signet.initialize(password);
            let ghost laid = done;
            let said = match done {
                Err(error) => Err(Error::Vault(error)),
                Ok(()) => Ok("signet initialized!\n".to_owned()),
            };
            assert(Signet::<S>::initialized(signet@, policy, laid));
            said
        },
    };
    assert(Password::asked::<S>(args.secret, asked));
    said
}

} // verus!
