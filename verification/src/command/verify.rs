use vstd::prelude::*;
use vstd::string::StringExecFns;
use crate::args::Verify;
use crate::keychain::key::is_id;
use crate::keychain::key::Key;
use crate::persist::error::reported;
use crate::persist::error::Cause;
use crate::persist::input::path_of;
use crate::persist::input::read;
use crate::signet::Signet;
use crate::system::Failure;
use crate::system::Input;
use crate::system::System;
use crate::text::to_hex;
use super::error::Error;
use super::ssh;

verus! {

/// What `verify` prints for the signer's fingerprint.
pub open spec fn good_line(fingerprint: Seq<char>) -> Seq<char> {
    "good signature from "@ + fingerprint + seq!['\n']
}

/// `line` is what `verify` prints for some fingerprint.
pub open spec fn names_signer(line: Seq<char>) -> bool {
    exists|fingerprint: Seq<char>| line == good_line(fingerprint)
}

/// `said` is the error of a read of `path` that failed with `failure`.
pub open spec fn unread(failure: Failure, path: Seq<char>, said: Result<String, Error>) -> bool {
    said matches Err(Error::Store(error)) && error.cause == Cause::of(failure) && error.path@
        == path
}

/// `said` is what `verify` may return in the vault at `root`. What `data`
/// holds is read first, then the file `sig`; a read that fails is the
/// error, at its path, and nothing follows it. What follows both reads is
/// as `signer_says` has it.
pub open spec fn verify_says<S: System>(root: Seq<char>, args: Verify, said: Result<String, Error>) -> bool {
    exists|message: Result<Vec<u8>, Failure>|
        S::read_gives(args.data, message) && match message {
            Err(failure) => unread(failure, path_of(args.data), said),
            Ok(_) => signature_says::<S>(root, args.sig, said),
        }
}

/// The second step of `verify`: the failure to read the file `sig`, else
/// what `signer_says` allows.
pub open spec fn signature_says<S: System>(root: Seq<char>, sig: String, said: Result<String, Error>) -> bool {
    exists|pem: Result<Vec<u8>, Failure>|
        S::read_gives(Input::File(sig), pem) && match pem {
            Err(failure) => unread(failure, sig@, said),
            Ok(_) => signer_says::<S>(root, said),
        }
}

/// The steps of `verify` after its reads. `Key`: the key library refused
/// the text of the signature, the text of the key or the signature
/// itself. Otherwise the key was looked for under the identifier of the
/// signer, as `found_says` has it.
pub open spec fn signer_says<S: System>(root: Seq<char>, said: Result<String, Error>) -> bool {
    match said {
        Err(Error::Key(_)) => true,
        _ => exists|id: Seq<char>| is_id(id) && found_says::<S>(root, id, said),
    }
}

/// The key of the current keychain was looked for under `id`: `said` is
/// the failure to find it, or the line that names the signer.
pub open spec fn found_says<S: System>(root: Seq<char>, id: Seq<char>, said: Result<String, Error>) -> bool {
    exists|found: Result<Key, crate::signet::Error>|
        Signet::<S>::sought(root, id, found) && match found {
            Err(error) => said == Err::<String, Error>(Error::Vault(error)),
            Ok(_) => said matches Ok(line) && names_signer(line@),
        }
}

/// Verifies that the signature in the file `sig` is one over what `data`
/// holds, in the namespace `ns`, by the key of the current keychain that
/// has the signer's fingerprint. Returns the line to print, which names
/// the signer; any failure on the way is an error.
pub fn verify<S: System>(signet: &Signet<S>, args: Verify) -> (said: Result<String, Error>)
    ensures
        verify_says::<S>(signet@, args, said),
{
    let Verify { sig, ns, data } = args;
    let read_message = read::<S>(&data);
    let ghost message = choose|outcome: Result<Vec<u8>, Failure>|
        S::read_gives(data, outcome) && reported(outcome, path_of(data), read_message);
    let message = match read_message {
        Ok(message) => message,
        Err(error) => {
            return Err(Error::Store(error));
        },
    };
    let input = Input::File(sig);
    let read_pem = read::<S>(&input);
    let ghost answer = choose|outcome: Result<Vec<u8>, Failure>|
        S::read_gives(input, outcome) && reported(outcome, path_of(input), read_pem);
    let said = after_reads(signet, ns.as_str(), message.as_slice(), read_pem);
    assert(signature_says::<S>(signet@, sig, said)) by {
        assert(S::read_gives(Input::File(sig), answer));
    }
    said
}

/// The steps of `verify` after its reads, with what the read of the
/// signature's file gave.
fn after_reads<S: System>(
    signet: &Signet<S>,
    ns: &str,
    message: &[u8],
    read_pem: Result<Vec<u8>, crate::persist::Error>,
) -> (said: Result<String, Error>)
    ensures
        match read_pem {
            Err(error) => said == Err::<String, Error>(Error::Store(error)),
            Ok(_) => signer_says::<S>(signet@, said),
        },
{
    let pem = match read_pem {
        Ok(pem) => pem,
        Err(error) => {
            return Err(Error::Store(error));
        },
    };
    let signature = match ssh::signature_from_pem(pem.as_slice()) {
        Ok(signature) => signature,
        Err(words) => {
            return Err(Error::Key(words));
        },
    };
    let id = to_hex(ssh::signer_digest(&signature).as_slice());
    let found = signet.find(id.as_str());
    let ghost sought = found;
    let said = match found {
        Err(error) => Err(Error::Vault(error)),
        Ok(key) => match ssh::from_openssh(key.openssh().as_bytes()) {
            Err(words) => Err(Error::Key(words)),
            Ok(key) => match ssh::verify(&key, ns, message, &signature) {
                Err(words) => Err(Error::Key(words)),
                Ok(()) => {
                    let fingerprint = ssh::signer_fingerprint(&signature);
                    let mut line = "good signature from ".to_owned();
                    line.append(fingerprint.as_str());
                    proof {
                        reveal_strlit("\n");
                        assert("\n"@ =~= seq!['\n']);
                    }
                    line.append("\n");
                    assert(line@ == good_line(fingerprint@));
                    assert(names_signer(line@));
                    Ok(line)
                },
            },
        },
    };
    assert(is_id(id@));
    assert(said matches Err(Error::Key(_)) || found_says::<S>(signet@, id@, said)) by {
        assert(Signet::<S>::sought(signet@, id@, sought));
    }
    assert(signer_says::<S>(signet@, said));
    said
}

} // verus!
