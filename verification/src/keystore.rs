//! The registry of keychain names and the one that is selected.

use vstd::prelude::*;

verus! {

/// The registry of keychains: their names in the order they were
/// registered, and the name that is current, if one was selected.
#[derive(Debug)]
pub struct Keystore {
    version: u64,
    keychains: Vec<String>,
    current: Option<String>,
}

/// Why the keystore refused.
#[derive(Debug, Clone, Copy, PartialEq, Eq, Structural)]
pub enum Error {
    /// The name is not registered.
    KeychainNotFound,
    /// No keychain is current.
    KeychainNotSelected,
}

/// What a keystore holds.
pub struct Registry {
    pub version: u64,
    pub keychains: Seq<Seq<char>>,
    pub current: Option<Seq<char>>,
}

impl Registry {
    /// A selection names a registered keychain.
    pub open spec fn well_formed(self) -> bool {
        self.current matches Some(name) ==> self.keychains.contains(name)
    }

    /// The registry a new keystore holds.
    pub open spec fn initial() -> Registry {
        Registry { version: 1, keychains: Seq::empty(), current: None }
    }

    /// The registry with `name` registered last.
    pub open spec fn insert(self, name: Seq<char>) -> Registry {
        Registry { keychains: self.keychains.push(name), ..self }
    }

    /// What `select` answers.
    pub open spec fn select_result(self, name: Seq<char>) -> Result<(), Error> {
        if self.keychains.contains(name) {
            Ok(())
        } else {
            Err(Error::KeychainNotFound)
        }
    }

    /// The registry after `select`: `name` is current if it is registered,
    /// else nothing has changed.
    pub open spec fn select(self, name: Seq<char>) -> Registry {
        if self.keychains.contains(name) {
            Registry { current: Some(name), ..self }
        } else {
            self
        }
    }

    /// What `current` answers.
    pub open spec fn current(self) -> Result<Seq<char>, Error> {
        match self.current {
            Some(name) => Ok(name),
            None => Err(Error::KeychainNotSelected),
        }
    }
}

impl View for Keystore {
    type V = Registry;

    closed spec fn view(&self) -> Registry {
        Registry {
            version: self.version,
            keychains: Seq::new(self.keychains@.len(), |i: int| self.keychains@[i]@),
            current: match self.current {
                Some(name) => Some(name@),
                None => None,
            },
        }
    }
}

impl Keystore {
    /// Builds the keystore that holds `version`, `keychains` and `current`, if
    /// the selection names one of the keychains.
    pub fn assemble(version: u64, keychains: Vec<String>, current: Option<String>) -> (made: Option<Keystore>)
        ensures
            match made {
                Some(store) => {
                    &&& store@.version == version
                    &&& store@.keychains == Seq::new(keychains@.len(), |i: int| keychains@[i]@)
                    &&& store@.current == match current {
                        Some(name) => Some(name@),
                        None => None,
                    }
                    &&& store@.well_formed()
                },
                None => current matches Some(name) && !Seq::new(
                    keychains@.len(),
                    |i: int| keychains@[i]@,
                ).contains(name@),
            },
    {
        let ghost names = Seq::new(keychains@.len(), |i: int| keychains@[i]@);
        let known = match &current {
            Some(name) => position(&keychains, name.as_str()).is_some(),
            None => true,
        };
        if known {
            Some(Keystore { version, keychains, current })
        } else {
            None
        }
    }

    /// The version of the keystore's layout.
    pub fn version(&self) -> (version: u64)
        ensures
            version == self@.version,
    {
        self.version
    }

    /// The registered names, in the order they were registered.
    pub fn keychains(&self) -> (names: &Vec<String>)
        ensures
            self@.keychains == Seq::new(names@.len(), |i: int| names@[i]@),
    {
        &self.keychains
    }

    /// The selection, if there is one.
    pub fn selected(&self) -> (name: Option<&String>)
        ensures
            self@.current == match name {
                Some(name) => Some(name@),
                None => None,
            },
    {
        self.current.as_ref()
    }

    /// Registers `name`, last in order. Nothing looks for an earlier
    /// registration of the same name.
    pub fn insert(&mut self, name: &str)
        ensures
            final(self)@ == old(self)@.insert(name@),
            old(self)@.well_formed() ==> final(self)@.well_formed(),
    {
        let ghost before = self@;
        self.keychains.push(name.to_owned());
        proof {
            assert(self@.keychains =~= before.keychains.push(name@));
            law_insert(before, name@);
        }
    }

    /// The name of the selected keychain.
    pub fn current(&self) -> (name: Result<&str, Error>)
        ensures
            match name {
                Ok(name) => self@.current() == Ok::<Seq<char>, Error>(name@),
                Err(error) => self@.current() == Err::<Seq<char>, Error>(error),
            },
    {
        match &self.current {
            Some(name) => Ok(name.as_str()),
            None => Err(Error::KeychainNotSelected),
        }
    }

    /// Selects `name` if it is registered; otherwise changes nothing and
    /// fails with `KeychainNotFound`.
    pub fn select(&mut self, name: &str) -> (done: Result<(), Error>)
        ensures
            done == old(self)@.select_result(name@),
            final(self)@ == old(self)@.select(name@),
            old(self)@.well_formed() ==> final(self)@.well_formed(),
    {
        match position(&self.keychains, name) {
            Some(i) => {
                let found = self.keychains[i].clone();
                self.current = Some(found);
                Ok(())
            },
            None => Err(Error::KeychainNotFound),
        }
    }
}

impl Default for Keystore {
    /// A keystore of version 1 with no keychain and no selection.
    fn default() -> (store: Self)
        ensures
            store@ == Registry::initial(),
    {
        let store = Keystore { version: 1, keychains: Vec::new(), current: None };
        proof {
            assert(store@.keychains =~= Seq::<Seq<char>>::empty());
        }
        store
    }
}

impl Error {
    /// The error in words.
    pub open spec fn message_text(self) -> Seq<char> {
        match self {
            Error::KeychainNotFound => "keychain not found"@,
            Error::KeychainNotSelected => "no keychain selected"@,
        }
    }

    /// The error in words.
    pub fn message(&self) -> (text: String)
        ensures
            text@ == self.message_text(),
    {
        match self {
            Error::KeychainNotFound => "keychain not found".to_owned(),
            Error::KeychainNotSelected => "no keychain selected".to_owned(),
        }
    }
}

/// The first place at which `name` stands in `names`.
pub fn position(names: &Vec<String>, name: &str) -> (at: Option<usize>)
    ensures
        match at {
            Some(i) => i < names@.len() && names@[i as int]@ == name@ && forall|j: int|
                0 <= j < i ==> names@[j]@ != name@,
            None => forall|j: int| 0 <= j < names@.len() ==> names@[j]@ != name@,
        },
        at is Some <==> Seq::new(names@.len(), |i: int| names@[i]@).contains(name@),
{
    let wanted = name.to_owned();
    let mut i: usize = 0;
    while i < names.len()
        invariant
            i <= names@.len(),
            wanted@ == name@,
            forall|j: int| 0 <= j < i ==> names@[j]@ != name@,
        decreases names@.len() - i,
    {
        if names[i] == wanted {
            assert(Seq::new(names@.len(), |i: int| names@[i]@)[i as int] == name@);
            return Some(i);
        }
        i += 1;
    }
    None
}

/// Registering a name keeps every earlier name where it was, puts the new
/// name last and leaves the selection alone; a well-formed registry stays
/// well-formed.
pub proof fn law_insert(registry: Registry, name: Seq<char>)
    ensures
        registry.insert(name).keychains.len() == registry.keychains.len() + 1,
        registry.insert(name).keychains.last() == name,
        forall|i: int|
            0 <= i < registry.keychains.len() ==> registry.insert(name).keychains[i]
                == registry.keychains[i],
        registry.insert(name).current == registry.current,
        registry.well_formed() ==> registry.insert(name).well_formed(),
{
    if let Some(chosen) = registry.current {
        if registry.well_formed() {
            let i = choose|i: int| 0 <= i < registry.keychains.len() && registry.keychains[i] == chosen;
            assert(registry.insert(name).keychains[i] == chosen);
        }
    }
}

/// Selecting a name succeeds exactly when the name is registered. After a
/// success the current keychain is that name; after a failure, which is
/// `KeychainNotFound`, the registry is what it was.
pub proof fn law_select(registry: Registry, name: Seq<char>)
    ensures
        registry.select_result(name) is Ok <==> registry.keychains.contains(name),
        registry.select_result(name) is Ok ==> registry.select(name).current() == Ok::<
            Seq<char>,
            Error,
        >(name),
        !registry.keychains.contains(name) ==> registry.select_result(name) == Err::<(), Error>(
            Error::KeychainNotFound,
        ) && registry.select(name) == registry,
        registry.well_formed() ==> registry.select(name).well_formed(),
{
}

} // verus!
