//! The vault: a store and the operations that commands are made of.

use vstd::prelude::*;
use crate::keychain::key::Key;
use crate::keychain::key::KeyText;
use crate::keychain::keychain::Contents;
use crate::keychain::keychain::Keychain;
use crate::keychain::keychain::Label;
use crate::keychain::keychain::Metadata;
use crate::keychain::password::Password;
use crate::keychain::password::Policy;
use crate::keychain::provider::Provider;
use crate::keystore::Keystore;
use crate::keystore::Registry;
use crate::persist::codec::keychain_node;
use crate::persist::codec::keystore_node;
use crate::persist::store::keychain_file;
use crate::persist::store::keystore_file;
use crate::persist::store::Persistent;
use crate::persist::store::Store;
use crate::system::System;

verus! {

/// A vault below a root directory, on the platform `S`.
pub struct Signet<S> {
    store: Store<S>,
}

/// What an operation of the vault fails with: the error of the part that
/// failed.
#[derive(Debug)]
pub enum Error {
    Store(crate::persist::Error),
    Keystore(crate::keystore::Error),
    Keychain(crate::keychain::Error),
}

impl<S> View for Signet<S> {
    type V = Seq<char>;

    /// The root directory.
    closed spec fn view(&self) -> Seq<char> {
        self.store@
    }
}

/// The name of the keychain that a new vault has.
pub open spec fn default_name() -> Seq<char> {
    "default"@
}

/// The keystore of a new vault: `default` is registered and selected.
pub open spec fn first_keystore() -> Registry {
    Registry::initial().insert(default_name()).select(default_name())
}

/// The keychain of a new vault: no keys, the name `default` and the given
/// password policy.
pub open spec fn first_keychain(password: Policy) -> Contents {
    Contents::empty(Label { identity: default_name(), password }, Provider::Local)
}

/// The result of a step of the store as a result of the vault.
pub open spec fn lifted<T>(step: Result<T, crate::persist::Error>) -> Result<T, Error> {
    match step {
        Ok(value) => Ok(value),
        Err(error) => Err(Error::Store(error)),
    }
}

impl<S: System> Signet<S> {
    /// `done` is what `initialize` may return: the failure to make the
    /// directory, else what `keystore_created` allows.
    pub open spec fn initialized(root: Seq<char>, password: Policy, done: Result<(), Error>) -> bool {
        exists|made: Result<(), crate::persist::Error>|
            Store::<S>::made(root, made) && match made {
                Err(error) => done == Err::<(), Error>(Error::Store(error)),
                Ok(_) => Self::keystore_created(root, password, done),
            }
    }

    /// The second step of `initialize`: the failure to create the keystore
    /// of a new vault, else what `keychain_created` allows.
    pub open spec fn keystore_created(root: Seq<char>, password: Policy, done: Result<(), Error>) -> bool {
        exists|store: Result<(), crate::persist::Error>|
            Store::<S>::created(root, keystore_file(), keystore_node(first_keystore()), store)
                && match store {
                Err(error) => done == Err::<(), Error>(Error::Store(error)),
                Ok(_) => Self::keychain_created(root, password, done),
            }
    }

    /// The last step of `initialize`: what creating the keychain of a new
    /// vault gives.
    pub open spec fn keychain_created(root: Seq<char>, password: Policy, done: Result<(), Error>) -> bool {
        exists|chain: Result<(), crate::persist::Error>|
            Store::<S>::created(
                root,
                keychain_file(default_name()),
                keychain_node(first_keychain(password)),
                chain,
            ) && done == lifted(chain)
    }

    /// `current` is what `current` may return: the failure to load the
    /// keystore, `KeychainNotSelected` where the keystore has no selection,
    /// else what loading the selected keychain gives.
    pub open spec fn selected(root: Seq<char>, current: Result<Keychain, Error>) -> bool {
        exists|store: Result<Keystore, crate::persist::Error>|
            Store::<S>::loaded(root, keystore_file(), store) && match store {
                Err(error) => current == Err::<Keychain, Error>(Error::Store(error)),
                Ok(store) => match store@.current() {
                    Err(error) => current == Err::<Keychain, Error>(Error::Keystore(error)),
                    Ok(name) => exists|chain: Result<Keychain, crate::persist::Error>|
                        Store::<S>::loaded(root, keychain_file(name), chain) && current == lifted(
                            chain,
                        ),
                },
            }
    }

    /// `found` is what `find` may return: the failure to load the current
    /// keychain, else what the keychain's `find` answers for `id`.
    pub open spec fn sought(root: Seq<char>, id: Seq<char>, found: Result<Key, Error>) -> bool {
        exists|current: Result<Keychain, Error>|
            Self::selected(root, current) && match current {
                Err(error) => found == Err::<Key, Error>(error),
                Ok(chain) => match chain@.find(id) {
                    Ok(key) => found matches Ok(copy) && copy@ == key,
                    Err(error) => found == Err::<Key, Error>(Error::Keychain(error)),
                },
            }
    }

    /// The vault below `root`.
    pub fn new(root: String) -> (vault: Self)
        ensures
            vault@ == root@,
    {
        let store = Store::new(root);
        Signet { store }
    }

    /// Lays out a new vault: the directory of the keychains, a keystore in
    /// which `default` is registered and selected, and an empty keychain
    /// `default` with the given password policy. Nothing that is there is
    /// written over.
    pub fn initialize(&self, password: Password) -> (done: Result<(), Error>)
        ensures
            Self::initialized(self@, password@, done),
    {
        let made = self.store.initialize();
        let ghost root = self@;
        let ghost policy = password@;
        if let Err(error) = made {
            return Err(Error::Store(error));
        }
        let default = "default";
        let keychain = Keychain::new(
            Metadata { identity: default.to_owned(), password: password },
            Provider::Local,
        );

        let mut keystore = Keystore::default();
        keystore.insert(default);
        match keystore.select(default) {
            Ok(()) => {},
            Err(error) => {
                // `default` was registered a line above: `select` finds it.
                assert(keystore@.keychains[0] == default@);
                assert(false);
                return Err(Error::Keystore(error));
            },
        }
        assert(keystore@ == first_keystore());
        assert(keychain@ == first_keychain(policy));

        let store = self.store.init(&keystore);
        if let Err(error) = store {
            let done = Err(Error::Store(error));
            assert(Self::keystore_created(root, policy, done)) by {
                assert(Store::<S>::created(
                    root,
                    keystore_file(),
                    keystore_node(first_keystore()),
                    store,
                ));
            }
            return done;
        }
        let chain = self.store.init(&keychain);
        let done = match chain {
            Ok(()) => Ok(()),
            Err(error) => Err(Error::Store(error)),
        };
        assert(Self::keychain_created(root, policy, done)) by {
            assert(Store::<S>::created(
                root,
                keychain_file(default_name()),
                keychain_node(first_keychain(policy)),
                chain,
            ) && done == lifted(chain));
        }
        assert(Self::keystore_created(root, policy, done)) by {
            assert(Store::<S>::created(
                root,
                keystore_file(),
                keystore_node(first_keystore()),
                store,
            ));
        }
        done
    }

    /// Loads the keychain that the keystore has selected.
    pub fn current(&self) -> (current: Result<Keychain, Error>)
        ensures
            Self::selected(self@, current),
    {
        let store = self.store.keystore();
        let ghost loaded = store;
        let current = match store {
            Err(error) => Err(Error::Store(error)),
            Ok(keystore) => match keystore.current() {
                Err(error) => Err(Error::Keystore(error)),
                Ok(name) => {
                    let chain = self.store.keychain(name);
                    let current = match chain {
                        Ok(chain) => Ok(chain),
                        Err(error) => Err(Error::Store(error)),
                    };
                    assert(Store::<S>::loaded(self@, keychain_file(name@), chain) && current
                        == lifted(chain));
                    current
                },
            },
        };
        assert(Store::<S>::loaded(self@, keystore_file(), loaded));
        current
    }

    /// A copy of the one key of the current keychain whose identifier
    /// starts with `id`.
    pub fn find(&self, id: &str) -> (found: Result<Key, Error>)
        ensures
            Self::sought(self@, id@, found),
    {
        let current = self.current();
        let ghost loaded = current;
        let found = match current {
            Err(error) => Err(error),
            Ok(chain) => match chain.find(id) {
                Ok(key) => Ok(key.clone()),
                Err(error) => Err(Error::Keychain(error)),
            },
        };
        assert(Self::selected(self@, loaded));
        found
    }

    /// Loads the keystore.
    pub fn keystore(&self) -> (loaded: Result<Keystore, Error>)
        ensures
            exists|store: Result<Keystore, crate::persist::Error>|
                Store::<S>::loaded(self@, keystore_file(), store) && loaded == lifted(store),
    {
        let store = self.store.keystore();
        let loaded = match store {
            Ok(keystore) => Ok(keystore),
            Err(error) => Err(Error::Store(error)),
        };
        assert(Store::<S>::loaded(self@, keystore_file(), store) && loaded == lifted(store));
        loaded
    }

    /// Loads the keychain `name`.
    pub fn keychain(&self, name: &str) -> (loaded: Result<Keychain, Error>)
        ensures
            exists|chain: Result<Keychain, crate::persist::Error>|
                Store::<S>::loaded(self@, keychain_file(name@), chain) && loaded == lifted(chain),
    {
        let chain = self.store.keychain(name);
        let loaded = match chain {
            Ok(keychain) => Ok(keychain),
            Err(error) => Err(Error::Store(error)),
        };
        assert(Store::<S>::loaded(self@, keychain_file(name@), chain) && loaded == lifted(chain));
        loaded
    }

    /// Writes a document in the place of its earlier state.
    pub fn sync<T: Persistent>(&self, data: &T) -> (done: Result<(), Error>)
        ensures
            exists|step: Result<(), crate::persist::Error>|
                Store::<S>::replaced(self@, data.file(), data.document(), step) && done == lifted(
                    step,
                ),
    {
        let step = self.store.sync(data);
        let done = match step {
            Ok(()) => Ok(()),
            Err(error) => Err(Error::Store(error)),
        };
        assert(Store::<S>::replaced(self@, data.file(), data.document(), step) && done == lifted(
            step,
        ));
        done
    }
}

impl Error {
    /// The error in words.
    pub open spec fn message_text(self) -> Seq<char> {
        match self {
            Error::Store(error) => error.message_text(),
            Error::Keystore(error) => error.message_text(),
            Error::Keychain(error) => error.message_text(),
        }
    }

    /// The error in words.
    pub fn message(&self) -> (text: String)
        ensures
            text@ == self.message_text(),
    {
        match self {
            Error::Store(error) => error.message(),
            Error::Keystore(error) => error.message(),
            Error::Keychain(error) => error.message(),
        }
    }
}

/// The keystore of a new vault holds the one name `default`, which is
/// current; it is well-formed.
pub proof fn law_first_keystore()
    ensures
        first_keystore().version == 1,
        first_keystore().keychains == seq![default_name()],
        first_keystore().current == Some(default_name()),
        first_keystore().well_formed(),
{
    let names = Registry::initial().insert(default_name()).keychains;
    assert(names =~= seq![default_name()]);
    assert(names[0] == default_name());
}

/// The keychain of a new vault has no keys and is well-formed.
pub proof fn law_first_keychain(password: Policy)
    ensures
        first_keychain(password).entries.len() == 0,
        first_keychain(password).metadata.identity == default_name(),
        first_keychain(password).metadata.password == password,
        first_keychain(password).well_formed(),
{
}

} // verus!
