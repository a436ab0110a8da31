//! The keychain: keys in the order they were added, each under its
//! identifier, and the policy that protects them.

use vstd::prelude::*;
use indexmap::IndexMap;
use crate::text::starts_with;
use super::key::Key;
use super::key::KeyText;
use super::password::Password;
use super::password::Policy;
use super::provider::Provider;

verus! {

#[verifier::external_type_specification]
#[verifier::external_body]
#[verifier::reject_recursive_types(K)]
#[verifier::reject_recursive_types(V)]
#[verifier::reject_recursive_types(S)]
pub struct ExIndexMap<K, V, S>(IndexMap<K, V, S>);

/// A named collection of keys and the policy that protects them.
#[derive(Debug)]
pub struct Keychain {
    keychain: IndexMap<String, Key>,
    metadata: Metadata,
    provider: Provider,
}

/// The name of a keychain and the policy of its password.
#[derive(Debug)]
pub struct Metadata {
    pub identity: String,
    pub password: Password,
}

/// Why a key was not found.
#[derive(Debug, Clone, Copy, PartialEq, Eq, Structural)]
pub enum Error {
    /// No identifier starts with the prefix.
    KeyNotFound,
    /// Several identifiers start with the prefix.
    KeyAmbiguous,
}

/// The entries of a keychain: identifier and key, in the order of the map.
pub type Entries = Seq<(Seq<char>, KeyText)>;

/// What a keychain's metadata holds.
pub struct Label {
    pub identity: Seq<char>,
    pub password: Policy,
}

/// What a keychain holds.
pub struct Contents {
    pub entries: Entries,
    pub metadata: Label,
    pub provider: Provider,
}

/// The entries that a map holds, in its order, which is the order of
/// insertion as long as nothing is removed by swapping.
pub uninterp spec fn held(map: IndexMap<String, Key>) -> Entries;

/// `IndexMap::new`: a map without entries.
#[verifier::external_body]
fn map_new() -> (map: IndexMap<String, Key>)
    ensures
        held(map) == Entries::empty(),
{
    IndexMap::new()
}

/// `IndexMap::len`: the number of entries.
#[verifier::external_body]
fn map_len(map: &IndexMap<String, Key>) -> (len: usize)
    ensures
        len == held(*map).len(),
{
    map.len()
}

/// `IndexMap::get_index`: the entry at `index`, if `index` is less than the
/// number of entries.
#[verifier::external_body]
fn map_get_index(map: &IndexMap<String, Key>, index: usize) -> (entry: Option<(&String, &Key)>)
    ensures
        match entry {
            Some((id, key)) => index < held(*map).len() && held(*map)[index as int] == (id@, key@),
            None => index >= held(*map).len(),
        },
{
    map.get_index(index)
}

/// `IndexMap::insert`: where an entry has the identifier, the entry stays
/// in its place, takes the new key and the old key is returned; where none
/// has it, the new entry comes last and `None` is returned.
#[verifier::external_body]
fn map_insert(map: &mut IndexMap<String, Key>, id: String, key: Key) -> (replaced: Option<Key>)
    ensures
        forall|i: int|
            0 <= i < held(*old(map)).len() && #[trigger] held(*old(map))[i].0 == id@ ==> {
                &&& held(*final(map)) == held(*old(map)).update(i, (id@, key@))
                &&& replaced matches Some(former) && former@ == held(*old(map))[i].1
            },
        (forall|i: int| 0 <= i < held(*old(map)).len() ==> #[trigger] held(*old(map))[i].0 != id@)
            ==> held(*final(map)) == held(*old(map)).push((id@, key@)) && replaced is None,
{
    map.insert(id, key)
}

/// `IndexMap::shift_remove`: where an entry has the identifier, it leaves,
/// those behind it move up in their order and its key is returned; where
/// none has it, nothing changes and `None` is returned.
#[verifier::external_body]
fn map_shift_remove(map: &mut IndexMap<String, Key>, id: &str) -> (removed: Option<Key>)
    ensures
        forall|i: int|
            0 <= i < held(*old(map)).len() && #[trigger] held(*old(map))[i].0 == id@ ==> {
                &&& held(*final(map)) == held(*old(map)).remove(i)
                &&& removed matches Some(former) && former@ == held(*old(map))[i].1
            },
        (forall|i: int| 0 <= i < held(*old(map)).len() ==> #[trigger] held(*old(map))[i].0 != id@)
            ==> held(*final(map)) == held(*old(map)) && removed is None,
{
    map.shift_remove(id)
}

/// An entry of `entries` has the identifier `id`.
pub open spec fn holds(entries: Entries, id: Seq<char>) -> bool {
    exists|i: int| 0 <= i < entries.len() && #[trigger] entries[i].0 == id
}

/// A place at which `id` stands in `entries`, if it stands in them.
pub open spec fn place(entries: Entries, id: Seq<char>) -> int {
    choose|i: int| 0 <= i < entries.len() && #[trigger] entries[i].0 == id
}

/// No identifier stands twice in `entries`.
pub open spec fn distinct(entries: Entries) -> bool {
    forall|i: int, j: int|
        0 <= i < entries.len() && 0 <= j < entries.len() && i != j ==> #[trigger] entries[i].0
            != #[trigger] entries[j].0
}

/// `entries` with `key` under `id`: in the place of the entry that has the
/// identifier, or last where none has it.
pub open spec fn put(entries: Entries, id: Seq<char>, key: KeyText) -> Entries {
    if holds(entries, id) {
        entries.update(place(entries, id), (id, key))
    } else {
        entries.push((id, key))
    }
}

/// `entries` without the entry under `id`, the others in their order.
pub open spec fn cut(entries: Entries, id: Seq<char>) -> Entries {
    if holds(entries, id) {
        entries.remove(place(entries, id))
    } else {
        entries
    }
}

/// The keys are OpenSSH private keys, each stands under its own identifier,
/// and no identifier stands twice.
pub open spec fn sound(entries: Entries) -> bool {
    &&& distinct(entries)
    &&& forall|i: int|
        0 <= i < entries.len() ==> (#[trigger] entries[i]).1.well_formed() && entries[i].0
            == entries[i].1.id()
}

impl Contents {
    /// The entries are sound.
    pub open spec fn well_formed(self) -> bool {
        sound(self.entries)
    }

    /// A keychain without keys.
    pub open spec fn empty(metadata: Label, provider: Provider) -> Contents {
        Contents { entries: Entries::empty(), metadata, provider }
    }

    /// The keychain after `key` was added.
    pub open spec fn add(self, key: KeyText) -> Contents {
        Contents { entries: put(self.entries, key.id(), key), ..self }
    }

    /// The keychain after the key under `id` was deleted.
    pub open spec fn delete(self, id: Seq<char>) -> Contents {
        Contents { entries: cut(self.entries, id), ..self }
    }

    /// The key that `delete` hands back.
    pub open spec fn deleted(self, id: Seq<char>) -> Option<KeyText> {
        if holds(self.entries, id) {
            Some(self.entries[place(self.entries, id)].1)
        } else {
            None
        }
    }

    /// The identifier at `i` starts with `prefix`.
    pub open spec fn hit(self, i: int, prefix: Seq<char>) -> bool {
        0 <= i < self.entries.len() && prefix.is_prefix_of(self.entries[i].0)
    }

    /// What `find` answers: the one key whose identifier starts with
    /// `prefix`; `KeyNotFound` where there is none, `KeyAmbiguous` where
    /// there are several.
    pub open spec fn find(self, prefix: Seq<char>) -> Result<KeyText, Error> {
        if forall|i: int| !self.hit(i, prefix) {
            Err(Error::KeyNotFound)
        } else if exists|i: int, j: int| i != j && self.hit(i, prefix) && self.hit(j, prefix) {
            Err(Error::KeyAmbiguous)
        } else {
            Ok(self.entries[choose|i: int| self.hit(i, prefix)].1)
        }
    }
}

impl View for Metadata {
    type V = Label;

    open spec fn view(&self) -> Label {
        Label { identity: self.identity@, password: self.password@ }
    }
}

impl View for Keychain {
    type V = Contents;

    closed spec fn view(&self) -> Contents {
        Contents { entries: held(self.keychain), metadata: self.metadata@, provider: self.provider }
    }
}

impl Keychain {
    /// A keychain without keys.
    pub fn new(metadata: Metadata, provider: Provider) -> (chain: Keychain)
        ensures
            chain@ == Contents::empty(metadata@, provider),
            chain@.well_formed(),
    {
        Keychain { keychain: map_new(), metadata, provider }
    }

    /// Adds `key` under its identifier and returns the identifier. A key
    /// that is already there keeps its place; any other comes last.
    pub fn add(&mut self, key: Key) -> (id: String)
        ensures
            id@ == key@.id(),
            crate::keychain::key::is_id(id@),
            final(self)@ == old(self)@.add(key@),
            old(self)@.well_formed() ==> final(self)@.well_formed(),
    {
        let id = key.id();
        let ghost before = self@;
        proof {
            if holds(before.entries, id@) {
                assert(before.entries[place(before.entries, id@)].0 == id@);
            }
            law_add(before, key@);
        }
        map_insert(&mut self.keychain, id.clone(), key);
        id
    }

    /// Removes the key under exactly `id` and returns it. Where there is
    /// none, nothing changes and nothing is returned.
    pub fn delete(&mut self, id: &str) -> (removed: Option<Key>)
        ensures
            final(self)@ == old(self)@.delete(id@),
            match removed {
                Some(key) => old(self)@.deleted(id@) == Some(key@),
                None => old(self)@.deleted(id@) is None,
            },
            old(self)@.well_formed() ==> final(self)@.well_formed(),
    {
        let ghost before = self@;
        proof {
            if holds(before.entries, id@) {
                assert(before.entries[place(before.entries, id@)].0 == id@);
            }
            law_delete(before, id@);
        }
        map_shift_remove(&mut self.keychain, id)
    }

    /// The one key whose identifier starts with `prefix`.
    pub fn find(&self, prefix: &str) -> (found: Result<&Key, Error>)
        ensures
            match found {
                Ok(key) => self@.find(prefix@) == Ok::<KeyText, Error>(key@),
                Err(error) => self@.find(prefix@) == Err::<KeyText, Error>(error),
            },
    {
        let len = map_len(&self.keychain);
        let mut first: Option<&Key> = None;
        let mut many = false;
        let ghost mut at: int = 0;
        let ghost mut other: int = 0;
        let mut i: usize = 0;
        while i < len
            invariant
                i <= len,
                len == self@.entries.len(),
                self@.entries == held(self.keychain),
                first is None ==> !many && forall|j: int| 0 <= j < i ==> !self@.hit(j, prefix@),
                first matches Some(key) ==> 0 <= at < i && self@.hit(at, prefix@) && key@
                    == self@.entries[at].1,
                many ==> 0 <= other < i && other != at && self@.hit(other, prefix@),
                first is Some && !many ==> forall|j: int|
                    0 <= j < i && self@.hit(j, prefix@) ==> j == at,
            decreases len - i,
        {
            match map_get_index(&self.keychain, i) {
                Some((id, key)) => {
                    if starts_with(id.as_str(), prefix) {
                        if first.is_none() {
                            first = Some(key);
                            proof {
                                at = i as int;
                            }
                        } else {
                            many = true;
                            proof {
                                other = i as int;
                            }
                        }
                    }
                },
                None => {},
            }
            i += 1;
        }
        match first {
            None => Err(Error::KeyNotFound),
            Some(key) => {
                assert(self@.hit(at, prefix@));
                if many {
                    Err(Error::KeyAmbiguous)
                } else {
                    Ok(key)
                }
            },
        }
    }

    /// The keychain's name and password policy.
    pub fn metadata(&self) -> (metadata: &Metadata)
        ensures
            metadata@ == self@.metadata,
    {
        &self.metadata
    }

    /// The keychain's password policy.
    pub fn password(&self) -> (password: &Password)
        ensures
            password@ == self@.metadata.password,
    {
        &self.metadata.password
    }

    /// Where the keychain's keys live.
    pub fn provider(&self) -> (provider: Provider)
        ensures
            provider == self@.provider,
    {
        self.provider
    }

    /// The number of keys.
    pub fn len(&self) -> (len: usize)
        ensures
            len == self@.entries.len(),
    {
        map_len(&self.keychain)
    }

    /// The keys, in the order of the keychain.
    pub fn keys(&self) -> (keys: Vec<&Key>)
        ensures
            keys@.len() == self@.entries.len(),
            forall|i: int| 0 <= i < keys@.len() ==> (#[trigger] keys@[i])@ == self@.entries[i].1,
    {
        let len = map_len(&self.keychain);
        let mut keys: Vec<&Key> = Vec::new();
        let mut i: usize = 0;
        while i < len
            invariant
                i <= len,
                len == self@.entries.len(),
                self@.entries == held(self.keychain),
                keys@.len() == i,
                forall|j: int| 0 <= j < i ==> (#[trigger] keys@[j])@ == self@.entries[j].1,
            decreases len - i,
        {
            match map_get_index(&self.keychain, i) {
                Some((_, key)) => {
                    keys.push(key);
                },
                None => {},
            }
            i += 1;
        }
        keys
    }

    /// The identifier and the key at `index`, counted in the order of the
    /// keychain.
    pub fn entry(&self, index: usize) -> (entry: Option<(&String, &Key)>)
        ensures
            match entry {
                Some((id, key)) => index < self@.entries.len() && self@.entries[index as int] == (
                    id@,
                    key@,
                ),
                None => index >= self@.entries.len(),
            },
    {
        map_get_index(&self.keychain, index)
    }
}

impl Error {
    /// The error in words.
    pub open spec fn message_text(self) -> Seq<char> {
        match self {
            Error::KeyNotFound => "key not found"@,
            Error::KeyAmbiguous => "key ambiguous"@,
        }
    }

    /// The error in words.
    pub fn message(&self) -> (text: String)
        ensures
            text@ == self.message_text(),
    {
        match self {
            Error::KeyNotFound => "key not found".to_owned(),
            Error::KeyAmbiguous => "key ambiguous".to_owned(),
        }
    }
}

/// Adding a key to a well-formed keychain leaves it well-formed. The key
/// stands under its identifier afterwards; a key that was there keeps its
/// place and the number of keys, any other comes last.
pub proof fn law_add(chain: Contents, key: KeyText)
    requires
        key.well_formed(),
    ensures
        chain.well_formed() ==> chain.add(key).well_formed(),
        holds(chain.add(key).entries, key.id()),
        holds(chain.entries, key.id()) ==> chain.add(key).entries.len() == chain.entries.len(),
        !holds(chain.entries, key.id()) ==> chain.add(key).entries == chain.entries.push(
            (key.id(), key),
        ),
{
    let id = key.id();
    let after = chain.add(key).entries;
    if holds(chain.entries, id) {
        let at = place(chain.entries, id);
        assert(after[at].0 == id);
    } else {
        assert(after[chain.entries.len() as int].0 == id);
    }
    if chain.well_formed() {
        assert forall|i: int, j: int|
            0 <= i < after.len() && 0 <= j < after.len() && i != j implies #[trigger] after[i].0
            != #[trigger] after[j].0 by {
            if holds(chain.entries, id) {
                assert(after[i].0 == chain.entries[i].0);
                assert(after[j].0 == chain.entries[j].0);
            } else {
                if i < chain.entries.len() {
                    assert(chain.entries[i].0 != id);
                }
                if j < chain.entries.len() {
                    assert(chain.entries[j].0 != id);
                }
            }
        }
        assert forall|i: int| 0 <= i < after.len() implies (#[trigger] after[i]).1.well_formed()
            && after[i].0 == after[i].1.id() by {
            if holds(chain.entries, id) {
                if i != place(chain.entries, id) {
                    assert(after[i] == chain.entries[i]);
                }
            } else {
                if i < chain.entries.len() {
                    assert(after[i] == chain.entries[i]);
                }
            }
        }
    }
}

/// Deleting leaves a well-formed keychain well-formed. An identifier that
/// stands in the keychain is gone afterwards and the keychain is one key
/// shorter; one that does not stand in it changes nothing.
pub proof fn law_delete(chain: Contents, id: Seq<char>)
    ensures
        chain.well_formed() ==> chain.delete(id).well_formed(),
        !holds(chain.entries, id) ==> chain.delete(id) == chain && chain.deleted(id) is None,
        holds(chain.entries, id) ==> chain.delete(id).entries.len() == chain.entries.len() - 1,
        chain.well_formed() ==> !holds(chain.delete(id).entries, id),
{
    let after = chain.delete(id).entries;
    if holds(chain.entries, id) {
        let at = place(chain.entries, id);
        assert(chain.entries[at].0 == id);
        assert forall|i: int| 0 <= i < after.len() implies #[trigger] after[i] == chain.entries[if i
            < at {
            i
        } else {
            i + 1
        }] by {}
        if chain.well_formed() {
            assert forall|i: int, j: int|
                0 <= i < after.len() && 0 <= j < after.len() && i != j implies #[trigger] after[i].0
                != #[trigger] after[j].0 by {
                let a = if i < at {
                    i
                } else {
                    i + 1
                };
                let b = if j < at {
                    j
                } else {
                    j + 1
                };
                assert(after[i] == chain.entries[a]);
                assert(after[j] == chain.entries[b]);
            }
            assert forall|i: int| 0 <= i < after.len() implies (#[trigger] after[i]).1.well_formed()
                && after[i].0 == after[i].1.id() by {
                let a = if i < at {
                    i
                } else {
                    i + 1
                };
                assert(after[i] == chain.entries[a]);
            }
            if holds(after, id) {
                let i = place(after, id);
                let a = if i < at {
                    i
                } else {
                    i + 1
                };
                assert(after[i] == chain.entries[a]);
                assert(chain.entries[a].0 != chain.entries[at].0);
            }
        }
    }
}

/// In a well-formed keychain the full identifier of a key finds exactly
/// that key.
pub proof fn law_find_by_id(chain: Contents, at: int)
    requires
        chain.well_formed(),
        0 <= at < chain.entries.len(),
    ensures
        chain.find(chain.entries[at].0) == Ok::<KeyText, Error>(chain.entries[at].1),
{
    let id = chain.entries[at].0;
    assert(chain.hit(at, id));
    assert forall|i: int| chain.hit(i, id) implies i == at by {
        crate::keychain::key::lemma_id(chain.entries[i].1);
        crate::keychain::key::lemma_id(chain.entries[at].1);
        assert(chain.entries[i].0.len() == id.len());
        assert(chain.entries[i].0 =~= id);
    }
    let chosen = choose|i: int| chain.hit(i, id);
    assert(chain.hit(chosen, id));
}

/// Where two keys of a keychain have identifiers that start with `prefix`,
/// `find` on that prefix fails with `KeyAmbiguous`.
pub proof fn law_find_ambiguous(chain: Contents, prefix: Seq<char>, i: int, j: int)
    requires
        i != j,
        chain.hit(i, prefix),
        chain.hit(j, prefix),
    ensures
        chain.find(prefix) == Err::<KeyText, Error>(Error::KeyAmbiguous),
{
}

/// With two keys or more, `find` on the empty prefix fails with
/// `KeyAmbiguous`.
pub proof fn law_find_empty_prefix(chain: Contents)
    requires
        chain.entries.len() >= 2,
    ensures
        chain.find(Seq::empty()) == Err::<KeyText, Error>(Error::KeyAmbiguous),
{
    assert(chain.hit(0, Seq::empty()));
    assert(chain.hit(1, Seq::empty()));
}

/// Where no identifier starts with `prefix`, `find` fails with
/// `KeyNotFound`; where exactly one does, `find` gives its key.
pub proof fn law_find_unique(chain: Contents, prefix: Seq<char>, at: int)
    requires
        chain.hit(at, prefix),
        forall|i: int| chain.hit(i, prefix) ==> i == at,
    ensures
        chain.find(prefix) == Ok::<KeyText, Error>(chain.entries[at].1),
{
    let chosen = choose|i: int| chain.hit(i, prefix);
    assert(chain.hit(chosen, prefix));
}

} // verus!
