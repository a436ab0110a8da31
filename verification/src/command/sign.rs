use std::path::Path;
use vstd::prelude::*;
use vstd::string::StringExecFns;
use crate::args::Sign;
use crate::keychain::keychain::Keychain;
use crate::persist::error::reported;
use crate::persist::error::Context;
use crate::persist::input::read;
use crate::signet::Signet;
use crate::system::Failure;
use crate::system::Input;
use crate::system::System;
use super::error::Error;
use super::ssh;

verus! {

/// The last component of a path as `std::path::Path::file_name` gives it,
/// or `None` where the path ends in `..` or is a root.
pub uninterp spec fn path_file_name(path: Seq<char>) -> Option<Seq<char>>;

/// The path with its last component replaced by `name`, as
/// `std::path::Path::with_file_name` gives it.
pub uninterp spec fn path_with_file_name(path: Seq<char>, name: Seq<char>) -> Seq<char>;

/// `Path::file_name`: the last component of the path, if it has one that is
/// a name.
#[verifier::external_body]
fn file_name(path: &str) -> (name: Option<String>)
    ensures
        match name {
            Some(name) => path_file_name(path@) == Some(name@),
            None => path_file_name(path@) is None,
        },
{
    Path::new(path).file_name().and_then(|name| name.to_str()).map(|name| name.to_owned())
}

/// `Path::with_file_name`: the path with `name` in the place of its last
/// component.
#[verifier::external_body]
fn with_file_name(path: &str, name: &str) -> (renamed: String)
    ensures
        renamed@ == path_with_file_name(path@, name@),
{
    Path::new(path).with_file_name(name).to_string_lossy().into_owned()
}

/// The path beside `path` whose file name is that of `path` with `suffix`
/// behind it.
pub open spec fn appended(path: Seq<char>, suffix: Seq<char>) -> Seq<char> {
    path_with_file_name(
        path,
        match path_file_name(path) {
            Some(name) => name + suffix,
            None => suffix,
        },
    )
}

/// Where the signature of what `input` holds is written: beside a file,
/// under its name with `.sig` behind it; to the standard output for the
/// standard input.
pub open spec fn output_of(input: Input) -> Seq<char> {
    match input {
        Input::File(path) => appended(path@, ".sig"@),
        Input::Stdin => "/dev/stdout"@,
    }
}

/// The path beside `path` whose file name is that of `path` with `suffix`
/// behind it.
pub fn append(path: &str, suffix: &str) -> (beside: String)
    ensures
        beside@ == appended(path@, suffix@),
{
    let mut name = match file_name(path) {
        Some(name) => name,
        None => String::new(),
    };
    proof {
        assert(Seq::<char>::empty() + suffix@ =~= suffix@);
    }
    name.append(suffix);
    with_file_name(path, name.as_str())
}

/// Writes the signature `data` of what `input` holds to its place: what
/// `System::write` answers for that place, with a failure told as an error
/// at it.
pub fn write<S: System>(input: &Input, data: &[u8]) -> (done: Result<(), crate::persist::Error>)
    ensures
        exists|outcome: Result<(), Failure>|
            S::write_gives(output_of(*input), data@, outcome) && reported(
                outcome,
                output_of(*input),
                done,
            ),
{
    let output = match input {
        Input::File(path) => append(path.as_str(), ".sig"),
        Input::Stdin => "/dev/stdout".to_owned(),
    };
    let outcome = S::write(output.as_str(), data);
    let done = outcome.context(output.as_str());
    assert(S::write_gives(output_of(*input), data@, outcome) && reported(
        outcome,
        output_of(*input),
        done,
    ));
    done
}

/// `said` is what `sign` may return in the vault at `root`: the failure to
/// load the current keychain, else the failure to find the one key whose
/// identifier starts with `prefix`; where it succeeds, nothing to print.
pub open spec fn sign_says<S: System>(root: Seq<char>, prefix: Seq<char>, said: Result<String, Error>) -> bool {
    exists|current: Result<Keychain, crate::signet::Error>|
        Signet::<S>::selected(root, current) && match current {
            Err(error) => said == Err::<String, Error>(Error::Vault(error)),
            Ok(chain) => match chain@.find(prefix) {
                Err(error) => said == Err::<String, Error>(
                    Error::Vault(crate::signet::Error::Keychain(error)),
                ),
                Ok(_) => said matches Ok(text) ==> text@.len() == 0,
            },
        }
}

/// Signs what `data` holds, in the namespace `ns`, with the one key of the
/// current keychain whose identifier starts with `key`, and writes the
/// signature to its place. Returns the text to print, which is empty.
pub fn sign<S: System>(signet: &Signet<S>, args: Sign) -> (said: Result<String, Error>)
    ensures
        sign_says::<S>(signet@, args.key@, said),
{
    let Sign { key, ns, data } = args;
    let current = signet.current();
    let ghost loaded = current;
    let said = match current {
        Err(error) => Err(Error::Vault(error)),
        Ok(keychain) => match keychain.find(key.as_str()) {
            Err(error) => Err(Error::Vault(crate::signet::Error::Keychain(error))),
            Ok(found) => match read::<S>(&data) {
                Err(error) => Err(Error::Store(error)),
                Ok(message) => match keychain.password().lookup::<S>() {
                    Err(error) => Err(Error::Password(error)),
                    Ok(password) => match signature(
                        found.openssh(),
                        password.as_str(),
                        ns.as_str(),
                        message.as_slice(),
                    ) {
                        Err(words) => Err(Error::Key(words)),
                        Ok(pem) => match write::<S>(&data, pem.as_str().as_bytes()) {
                            Err(error) => Err(Error::Store(error)),
                            Ok(()) => Ok(String::new()),
                        },
                    },
                },
            },
        },
    };
    assert(Signet::<S>::selected(signet@, loaded));
    said
}

/// The signature of `message` in `namespace` with the sealed key `pem`,
/// opened with `password`: as PEM text, which begins with the header of a
/// signature, or what the key library said when it refused. It refuses an
/// empty namespace, whatever the key is; whether it reads the key, opens
/// it and signs with it is the library's to say.
pub fn signature(pem: &str, password: &str, namespace: &str, message: &[u8]) -> (signed: Result<
    String,
    String,
>)
    ensures
        namespace@.len() == 0 ==> signed is Err,
        signed matches Ok(text) ==> ssh::signature_header().is_prefix_of(text@),
{
    let sealed = ssh::from_openssh(pem.as_bytes())?;
    let opened = ssh::decrypt(&sealed, password)?;
    let signature = ssh::sign(&opened, namespace, message)?;
    ssh::signature_to_pem(&signature)
}

} // verus!
