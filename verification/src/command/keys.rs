use vstd::prelude::*;
use vstd::string::StrSliceExecFns;
use vstd::string::StringExecFns;
use ssh_key::PrivateKey;
use crate::args::Keys;
use crate::keychain::key::Key;
use crate::keychain::key::KeyText;
use crate::keychain::keychain::Contents;
use crate::keychain::keychain::Keychain;
use crate::keystore::Keystore;
use crate::passphrase::Passphrase;
use crate::persist::codec::keychain_node;
use crate::persist::input::read;
use crate::persist::store::keychain_file;
use crate::persist::store::keystore_file;
use crate::persist::store::Store;
use crate::signet::Signet;
use crate::system::Failure;
use crate::system::Input;
use crate::system::System;
use super::error::Error;
use super::ssh;

verus! {

/// The width to which `list` sets an identifier, flush right.
pub const WIDTH: usize = 66;

/// `count` spaces.
pub open spec fn spaces(count: nat) -> Seq<char> {
    Seq::new(count, |i: int| ' ')
}

/// `text` flush right in `width` columns; as it is where it is wider.
pub open spec fn flush_right(text: Seq<char>, width: nat) -> Seq<char> {
    if text.len() >= width {
        text
    } else {
        spaces((width - text.len()) as nat) + text
    }
}

/// The lines of a listing: each identifier flush right, with a line break
/// between two of them.
pub open spec fn lines(ids: Seq<Seq<char>>) -> Seq<char>
    decreases ids.len(),
{
    if ids.len() == 0 {
        Seq::empty()
    } else if ids.len() == 1 {
        flush_right(ids[0], WIDTH as nat)
    } else {
        lines(ids.drop_last()) + seq!['\n'] + flush_right(ids.last(), WIDTH as nat)
    }
}

/// What `list` prints for the keychain `name` with the identifiers `ids`.
pub open spec fn listing(name: Seq<char>, ids: Seq<Seq<char>>) -> Seq<char> {
    "keychain '"@ + name + "':\n"@ + lines(ids) + seq!['\n']
}

/// What `delete` prints for the identifier `id`.
pub open spec fn deleted_line(id: Seq<char>) -> Seq<char> {
    "deleted key "@ + id + seq!['\n']
}

/// The identifiers of a keychain, in its order.
pub open spec fn ids_of(chain: Contents) -> Seq<Seq<char>> {
    Seq::new(chain.entries.len(), |i: int| chain.entries[i].0)
}

/// `text` flush right in `width` columns.
pub fn pad(text: &str, width: usize) -> (padded: String)
    ensures
        padded@ == flush_right(text@, width as nat),
{
    let len = text.unicode_len();
    let mut padded = String::new();
    let mut count: usize = len;
    while count < width
        invariant
            len == text@.len(),
            len <= count,
            count <= width || count == len,
            padded@ == spaces((count - len) as nat),
        decreases width - count,
    {
        proof {
            reveal_strlit(" ");
            assert(spaces((count - len) as nat) + " "@ =~= spaces((count + 1 - len) as nat));
        }
        padded.append(" ");
        count += 1;
    }
    proof {
        assert(spaces(0) + text@ =~= text@);
    }
    padded.append(text);
    padded
}

/// The listing of the keychain `name`.
pub fn render(name: &str, chain: &Keychain) -> (text: String)
    ensures
        text@ == listing(name@, ids_of(chain@)),
{
    let len = chain.len();
    let ghost ids = ids_of(chain@);
    let mut body = String::new();
    let mut i: usize = 0;
    while i < len
        invariant
            i <= len,
            len == chain@.entries.len(),
            ids == ids_of(chain@),
            body@ == lines(ids.take(i as int)),
        decreases len - i,
    {
        proof {
            assert(ids.take(i + 1).drop_last() =~= ids.take(i as int));
            assert(ids.take(i + 1).last() == ids[i as int]);
            reveal_strlit("\n");
            assert("\n"@ =~= seq!['\n']);
            assert(Seq::<char>::empty() + flush_right(ids[i as int], WIDTH as nat) =~= flush_right(
                ids[i as int],
                WIDTH as nat,
            ));
        }
        match chain.entry(i) {
            Some((id, _)) => {
                if i > 0 {
                    body.append("\n");
                }
                body.append(pad(id.as_str(), WIDTH).as_str());
            },
            None => {},
        }
        i += 1;
    }
    proof {
        assert(ids.take(len as int) =~= ids);
        reveal_strlit("\n");
        assert("\n"@ =~= seq!['\n']);
    }
    let mut text = "keychain '".to_owned();
    text.append(name);
    text.append("':\n");
    text.append(body.as_str());
    text.append("\n");
    text
}

/// `said` is what `delete` may return in the vault at `root`: the failure
/// to load the current keychain or to find the one key whose identifier
/// starts with `prefix`; else what comes of writing the keychain without
/// that key: on success the line that names the deleted key.
pub open spec fn delete_says<S: System>(root: Seq<char>, prefix: Seq<char>, said: Result<String, Error>) -> bool {
    exists|current: Result<Keychain, crate::signet::Error>|
        Signet::<S>::selected(root, current) && match current {
            Err(error) => said == Err::<String, Error>(Error::Vault(error)),
            Ok(chain) => match chain@.find(prefix) {
                Err(error) => said == Err::<String, Error>(
                    Error::Vault(crate::signet::Error::Keychain(error)),
                ),
                Ok(key) => exists|step: Result<(), crate::persist::Error>|
                    Store::<S>::replaced(
                        root,
                        keychain_file(chain@.metadata.identity),
                        keychain_node(chain@.delete(key.id())),
                        step,
                    ) && match step {
                        Err(error) => said == Err::<String, Error>(
                            Error::Vault(crate::signet::Error::Store(error)),
                        ),
                        Ok(_) => said matches Ok(line) && line@ == deleted_line(key.id()),
                    },
            },
        }
}

/// Deletes from the current keychain the one key whose identifier starts
/// with `key`, and writes the keychain. Returns the line to print.
pub fn delete<S: System>(signet: &Signet<S>, key: &str) -> (said: Result<String, Error>)
    ensures
        delete_says::<S>(signet@, key@, said),
{
    let current = signet.current();
    let ghost loaded = current;
    let said = match current {
        Err(error) => Err(Error::Vault(error)),
        Ok(chain) => {
            let mut keychain = chain;
            let found = match keychain.find(key) {
                Ok(key) => Ok(key.id()),
                Err(error) => Err(error),
            };
            match found {
                Err(error) => Err(Error::Vault(crate::signet::Error::Keychain(error))),
                Ok(id) => {
                    keychain.delete(id.as_str());
                    let done = signet.sync(&keychain);
                    let ghost step = choose|step: Result<(), crate::persist::Error>|
                        Store::<S>::replaced(
                            signet@,
                            keychain_file(keychain@.metadata.identity),
                            keychain_node(keychain@),
                            step,
                        ) && done == crate::signet::lifted(step);
                    let said = match done {
                        Err(error) => Err(Error::Vault(error)),
                        Ok(()) => {
                            let mut line = "deleted key ".to_owned();
                            line.append(id.as_str());
                            proof {
                                reveal_strlit("\n");
                                assert("\n"@ =~= seq!['\n']);
                            }
                            line.append("\n");
                            Ok(line)
                        },
                    };
                    assert(Store::<S>::replaced(
                        signet@,
                        keychain_file(chain@.metadata.identity),
                        keychain_node(chain@.delete(id@)),
                        step,
                    ));
                    said
                },
            }
        },
    };
    assert(Signet::<S>::selected(signet@, loaded));
    said
}

/// `said` is what `list` may return in the vault at `root`: the failure to
/// load the keystore, `KeychainNotSelected`, the failure to load the
/// selected keychain, or the listing of that keychain under the name by
/// which the keystore selects it.
pub open spec fn list_says<S: System>(root: Seq<char>, said: Result<String, Error>) -> bool {
    exists|store: Result<Keystore, crate::persist::Error>|
        Store::<S>::loaded(root, keystore_file(), store) && match store {
            Err(error) => said == Err::<String, Error>(
                Error::Vault(crate::signet::Error::Store(error)),
            ),
            Ok(store) => match store@.current() {
                Err(error) => said == Err::<String, Error>(
                    Error::Vault(crate::signet::Error::Keystore(error)),
                ),
                Ok(name) => listed::<S>(root, name, said),
            },
        }
}

/// The last step of `list`: the failure to load the keychain `name`, or
/// its listing.
pub open spec fn listed<S: System>(root: Seq<char>, name: Seq<char>, said: Result<String, Error>) -> bool {
    exists|chain: Result<Keychain, crate::persist::Error>|
        Store::<S>::loaded(root, keychain_file(name), chain) && match chain {
            Err(error) => said == Err::<String, Error>(
                Error::Vault(crate::signet::Error::Store(error)),
            ),
            Ok(chain) => said matches Ok(text) && text@ == listing(name, ids_of(chain@)),
        }
}

/// Lists the identifiers of the current keychain. Returns the text to
/// print.
pub fn list<S: System>(signet: &Signet<S>) -> (said: Result<String, Error>)
    ensures
        list_says::<S>(signet@, said),
{
    let loaded = signet.keystore();
    let ghost store = choose|store: Result<Keystore, crate::persist::Error>|
        Store::<S>::loaded(signet@, keystore_file(), store) && loaded == crate::signet::lifted(
            store,
        );
    let said = match loaded {
        Err(error) => Err(Error::Vault(error)),
        Ok(keystore) => match keystore.current() {
            Err(error) => Err(Error::Vault(crate::signet::Error::Keystore(error))),
            Ok(name) => {
                let opened = signet.keychain(name);
                let ghost chain = choose|chain: Result<Keychain, crate::persist::Error>|
                    Store::<S>::loaded(signet@, keychain_file(name@), chain) && opened
                        == crate::signet::lifted(chain);
                let said = match opened {
                    Err(error) => Err(Error::Vault(error)),
                    Ok(keychain) => Ok(render(name, &keychain)),
                };
                assert(listed::<S>(signet@, name@, said)) by {
                    assert(Store::<S>::loaded(signet@, keychain_file(name@), chain));
                }
                said
            },
        },
    };
    assert(Store::<S>::loaded(signet@, keystore_file(), store));
    said
}

/// The line that names the key `id` after `lead`.
pub open spec fn key_line(lead: Seq<char>, id: Seq<char>) -> Seq<char> {
    lead + id + seq!['\n']
}

/// `line` names `key` after `lead`, and the keychain `chain` with `key`
/// added was written in the place of its earlier state.
pub open spec fn kept<S: System>(
    root: Seq<char>,
    chain: Contents,
    key: KeyText,
    lead: Seq<char>,
    line: Seq<char>,
) -> bool {
    &&& key.well_formed()
    &&& line == key_line(lead, key.id())
    &&& Store::<S>::replaced(
        root,
        keychain_file(chain.metadata.identity),
        keychain_node(chain.add(key)),
        Ok(()),
    )
}

/// `line` names, after `lead`, some key with which the keychain `chain`
/// was written.
pub open spec fn kept_one<S: System>(root: Seq<char>, chain: Contents, lead: Seq<char>, line: Seq<char>) -> bool {
    exists|key: KeyText| kept::<S>(root, chain, key, lead, line)
}

/// `said` is what a command that adds a key may return in the vault at
/// `root`: the failure to load the current keychain; anything but success
/// where a later step fails; where it succeeds, the line that names, after
/// `lead`, a key with which that keychain was written.
pub open spec fn add_says<S: System>(root: Seq<char>, lead: Seq<char>, said: Result<String, Error>) -> bool {
    exists|current: Result<Keychain, crate::signet::Error>|
        Signet::<S>::selected(root, current) && match current {
            Err(error) => said == Err::<String, Error>(Error::Vault(error)),
            Ok(chain) => said matches Ok(line) ==> kept_one::<S>(root, chain@, lead, line@),
        }
}

/// The keychain `chain` with `key` added could not be written in the
/// place of its earlier state, and `error` is why.
pub open spec fn unkept<S: System>(
    root: Seq<char>,
    chain: Contents,
    key: KeyText,
    error: crate::signet::Error,
) -> bool {
    key.well_formed() && match error {
        crate::signet::Error::Store(cause) => Store::<S>::replaced(
            root,
            keychain_file(chain.metadata.identity),
            keychain_node(chain.add(key)),
            Err(cause),
        ),
        _ => false,
    }
}

/// The keychain `chain` with some key added could not be written, and
/// `error` is why.
pub open spec fn unkept_one<S: System>(root: Seq<char>, chain: Contents, error: crate::signet::Error) -> bool {
    exists|key: KeyText| unkept::<S>(root, chain, key, error)
}

/// `said` is what `keep` may return for the keychain `chain` in the vault
/// at `root`. `Key`: the key library did not give the text of the key, or
/// gave a text that is no key; nothing was written. `Vault`: the keychain
/// with the key added could not be written. Success: it was written, and
/// the line names the key after `lead`.
pub open spec fn keep_says<S: System>(
    root: Seq<char>,
    chain: Contents,
    lead: Seq<char>,
    said: Result<String, Error>,
) -> bool {
    match said {
        Ok(line) => kept_one::<S>(root, chain, lead, line@),
        Err(Error::Key(_)) => true,
        Err(Error::Vault(error)) => unkept_one::<S>(root, chain, error),
        Err(_) => false,
    }
}

/// Adds the sealed key to the keychain and writes the keychain. Returns
/// the line that names the key after `lead`.
pub fn keep<S: System>(signet: &Signet<S>, keychain: Keychain, sealed: &PrivateKey, lead: &str) -> (said:
    Result<String, Error>)
    ensures
        keep_says::<S>(signet@, keychain@, lead@, said),
{
    let ghost chain = keychain@;
    let mut grown = keychain;
    let text = match ssh::to_openssh(sealed) {
        Ok(text) => text,
        Err(words) => {
            return Err(Error::Key(words));
        },
    };
    let key = match Key::from_openssh(text) {
        Some(key) => key,
        None => {
            return Err(Error::Key("not a private key".to_owned()));
        },
    };
    let ghost added = key@;
    let id = grown.add(key);
    let done = signet.sync(&grown);
    let ghost step = choose|step: Result<(), crate::persist::Error>|
        Store::<S>::replaced(
            signet@,
            keychain_file(grown@.metadata.identity),
            keychain_node(grown@),
            step,
        ) && done == crate::signet::lifted(step);
    match done {
        Err(error) => {
            assert(unkept::<S>(signet@, chain, added, error));
            assert(unkept_one::<S>(signet@, chain, error));
            Err(Error::Vault(error))
        },
        Ok(()) => {
            let mut line = lead.to_owned();
            line.append(id.as_str());
            proof {
                reveal_strlit("\n");
                assert("\n"@ =~= seq!['\n']);
            }
            line.append("\n");
            assert(step == Ok::<(), crate::persist::Error>(()));
            assert(kept::<S>(signet@, chain, added, lead@, line@));
            assert(kept_one::<S>(signet@, chain, lead@, line@));
            Ok(line)
        },
    }
}

/// Makes a new key, seals it under the password of the current keychain,
/// adds it and writes the keychain. Returns the line to print.
pub fn create<S: System>(signet: &Signet<S>) -> (said: Result<String, Error>)
    ensures
        add_says::<S>(signet@, "created key "@, said),
{
    let current = signet.current();
    let ghost loaded = current;
    let said = match current {
        Err(error) => Err(Error::Vault(error)),
        Ok(keychain) => match keychain.password().lookup::<S>() {
            Err(error) => Err(Error::Password(error)),
            Ok(password) => match ssh::random() {
                Err(words) => Err(Error::Key(words)),
                Ok(key) => match ssh::encrypt(&key, password.as_str()) {
                    Err(words) => Err(Error::Key(words)),
                    Ok(sealed) => keep(signet, keychain, &sealed, "created key "),
                },
            },
        },
    };
    assert(Signet::<S>::selected(signet@, loaded));
    said
}

/// `opened` is what `open_with` may return for what the platform answers
/// at `prompt`: the platform's failure as a `System` error of the password;
/// for an entry, the key that the key library opens with it, or a `Key`
/// error where the library refuses, as it does for a wrong password.
pub open spec fn opened_with<S: System>(prompt: Seq<char>, opened: Result<PrivateKey, Error>) -> bool {
    exists|entry: Result<String, Failure>|
        S::prompt_gives(prompt, entry) && match entry {
            Err(failure) => opened == Err::<PrivateKey, Error>(
                Error::Password(crate::keychain::password::Error::System(failure.message)),
            ),
            Ok(_) => match opened {
                Ok(_) => true,
                Err(Error::Key(_)) => true,
                Err(_) => false,
            },
        }
}

/// The key opened with the password that the platform gives at `prompt`.
pub fn open_with<S: System>(key: &PrivateKey, prompt: &str) -> (opened: Result<PrivateKey, Error>)
    ensures
        opened_with::<S>(prompt@, opened),
{
    let entry = S::prompt(prompt);
    let ghost answer = entry;
    let opened = match entry {
        Err(failure) => Err(
            Error::Password(crate::keychain::password::Error::System(failure.message)),
        ),
        Ok(password) => {
            let password = Passphrase::new(password);
            match ssh::decrypt(key, password.as_str()) {
                Ok(opened) => Ok(opened),
                Err(words) => Err(Error::Key(words)),
            }
        },
    };
    assert(S::prompt_gives(prompt@, answer));
    opened
}

/// Reads a private key from `key`, opens it if it is sealed, seals it
/// under the password of the current keychain, adds it and writes the
/// keychain. Returns the line to print.
pub fn import<S: System>(signet: &Signet<S>, key: &Input) -> (said: Result<String, Error>)
    ensures
        add_says::<S>(signet@, "imported key "@, said),
{
    let current = signet.current();
    let ghost loaded = current;
    let said = match current {
        Err(error) => Err(Error::Vault(error)),
        Ok(keychain) => {
            let bytes = match read::<S>(key) {
                Ok(bytes) => bytes,
                Err(error) => {
                    assert(Signet::<S>::selected(signet@, loaded));
                    return Err(Error::Store(error));
                },
            };
            match ssh::from_openssh(bytes.as_slice()) {
                Err(words) => Err(Error::Key(words)),
                Ok(key) => match keychain.password().lookup::<S>() {
                    Err(error) => Err(Error::Password(error)),
                    Ok(password) => {
                        let opened = if ssh::is_encrypted(&key) {
                            open_with::<S>(&key, "key password: ")
                        } else {
                            Ok(key)
                        };
                        match opened {
                            Err(error) => Err(error),
                            Ok(key) => match ssh::encrypt(&key, password.as_str()) {
                                Err(words) => Err(Error::Key(words)),
                                Ok(sealed) => keep(signet, keychain, &sealed, "imported key "),
                            },
                        }
                    },
                },
            }
        },
    };
    assert(Signet::<S>::selected(signet@, loaded));
    said
}

/// `said` is what a command that reads one key may return in the vault at
/// `root`: the failure to load the current keychain; success only where
/// `find` gives the key for `prefix`, and the error of `find` only where
/// `find` fails with it.
pub open spec fn read_says<S: System>(root: Seq<char>, prefix: Seq<char>, said: Result<String, Error>) -> bool {
    exists|current: Result<Keychain, crate::signet::Error>|
        Signet::<S>::selected(root, current) && match current {
            Err(error) => said == Err::<String, Error>(Error::Vault(error)),
            Ok(chain) => match chain@.find(prefix) {
                Ok(_) => !(said matches Err(Error::Vault(crate::signet::Error::Keychain(_)))),
                Err(error) => said is Err && (said matches Err(
                    Error::Vault(crate::signet::Error::Keychain(other)),
                ) ==> other == error),
            },
        }
}

/// Opens the one key of the current keychain whose identifier starts with
/// `key`, and seals it under a password that it asks for. Returns the
/// sealed key in OpenSSH's text encoding, which is the text to print.
pub fn export<S: System>(signet: &Signet<S>, key: &str) -> (said: Result<String, Error>)
    ensures
        read_says::<S>(signet@, key@, said),
{
    let current = signet.current();
    let ghost loaded = current;
    let said = match current {
        Err(error) => Err(Error::Vault(error)),
        Ok(keychain) => match keychain.password().lookup::<S>() {
            Err(error) => Err(Error::Password(error)),
            Ok(password) => match keychain.find(key) {
                Err(error) => Err(Error::Vault(crate::signet::Error::Keychain(error))),
                Ok(found) => match ssh::from_openssh(found.openssh().as_bytes()) {
                    Err(words) => Err(Error::Key(words)),
                    Ok(sealed) => match ssh::decrypt(&sealed, password.as_str()) {
                        Err(words) => Err(Error::Key(words)),
                        Ok(opened) => match S::prompt("export password: ") {
                            Err(failure) => Err(
                                Error::Password(
                                    crate::keychain::password::Error::System(failure.message),
                                ),
                            ),
                            Ok(password) => {
                                let password = Passphrase::new(password);
                                match ssh::encrypt(&opened, password.as_str()) {
                                    Err(words) => Err(Error::Key(words)),
                                    Ok(exported) => match ssh::to_openssh(&exported) {
                                        Err(words) => Err(Error::Key(words)),
                                        Ok(text) => Ok(text),
                                    },
                                }
                            },
                        },
                    },
                },
            },
        },
    };
    assert(Signet::<S>::selected(signet@, loaded));
    said
}

/// The public half of the one key of the current keychain whose identifier
/// starts with `key`, in OpenSSH's one-line encoding. Returns the line to
/// print.
pub fn public<S: System>(signet: &Signet<S>, key: &str) -> (said: Result<String, Error>)
    ensures
        read_says::<S>(signet@, key@, said),
{
    let current = signet.current();
    let ghost loaded = current;
    let said = match current {
        Err(error) => Err(Error::Vault(error)),
        Ok(keychain) => match keychain.find(key) {
            Err(error) => Err(Error::Vault(crate::signet::Error::Keychain(error))),
            Ok(found) => match ssh::from_openssh(found.openssh().as_bytes()) {
                Err(words) => Err(Error::Key(words)),
                Ok(key) => match ssh::public_openssh(&key) {
                    Err(words) => Err(Error::Key(words)),
                    Ok(line) => {
                        let mut line = line;
                        line.append("\n");
                        Ok(line)
                    },
                },
            },
        },
    };
    assert(Signet::<S>::selected(signet@, loaded));
    said
}

/// Runs the command on keys that `cmd` names. Returns the text to print.
pub fn keys<S: System>(signet: &Signet<S>, cmd: Keys) -> (said: Result<String, Error>)
    ensures
        match cmd {
            Keys::Create => add_says::<S>(signet@, "created key "@, said),
            Keys::Delete(key) => delete_says::<S>(signet@, key@, said),
            Keys::Export(key) => read_says::<S>(signet@, key@, said),
            Keys::Import(_) => add_says::<S>(signet@, "imported key "@, said),
            Keys::Public(key) => read_says::<S>(signet@, key@, said),
            Keys::List => list_says::<S>(signet@, said),
        },
{
    match cmd {
        Keys::Create => create(signet),
        Keys::Delete(key) => delete(signet, key.as_str()),
        Keys::Export(key) => export(signet, key.as_str()),
        Keys::Import(key) => import(signet, &key),
        Keys::Public(key) => public(signet, key.as_str()),
        Keys::List => list(signet),
    }
}

} // verus!
