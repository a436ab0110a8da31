//! The store: documents under a root directory, written and read through
//! the platform.

use std::marker::PhantomData;
use vstd::prelude::*;
use vstd::string::StringExecFns;
use vstd::utf8::encode_utf8;
use crate::keychain::keychain::Keychain;
use crate::keystore::Keystore;
use crate::system::Failure;
use crate::system::Input;
use crate::system::System;
use crate::text::join;
use crate::text::joined;
use super::codec::keychain_node;
use super::codec::keychain_of;
use super::codec::keystore_node;
use super::codec::keystore_of;
use super::error::invalid;
use super::error::refused;
use super::error::reported;
use super::error::Cause;
use super::error::Context;
use super::error::Error;
use super::yaml::yaml_text;
use super::yaml::yaml_tree;
use super::yaml::Node;
use super::yaml::Yaml;

verus! {

/// A store of documents below a root directory, on the platform `S`.
pub struct Store<S> {
    root: String,
    sys: PhantomData<S>,
}

/// What the store can keep: a document that knows its file, its form as a
/// tree, and which trees are of its kind.
pub trait Persistent: Sized {
    /// The document's file, relative to the root of the store.
    spec fn file(&self) -> Seq<char>;

    /// The document as a tree.
    spec fn document(&self) -> Node;

    /// `read` is what `decode` answers for `tree`.
    spec fn decoded(tree: Node, read: Option<Self>) -> bool;

    fn filename(&self) -> (name: String)
        ensures
            name@ == self.file(),
    ;

    fn encode(&self) -> (tree: Yaml)
        ensures
            tree@ == self.document(),
    ;

    fn decode(tree: &Yaml) -> (read: Option<Self>)
        ensures
            Self::decoded(tree@, read),
    ;
}

/// The keystore's file.
pub open spec fn keystore_file() -> Seq<char> {
    "signet.yml"@
}

/// The file of the keychain `name`.
pub open spec fn keychain_file(name: Seq<char>) -> Seq<char> {
    "chains/"@ + name + ".yml"@
}

/// The directory of the keychains.
pub open spec fn chains_dir() -> Seq<char> {
    "chains"@
}

/// The keystore's file.
pub fn keystore() -> (file: String)
    ensures
        file@ == keystore_file(),
{
    "signet.yml".to_owned()
}

/// The file of the keychain `name`.
pub fn keychain(name: &str) -> (file: String)
    ensures
        file@ == keychain_file(name@),
{
    let mut file = "chains/".to_owned();
    file.append(name);
    file.append(".yml");
    file
}

impl Persistent for Keychain {
    open spec fn file(&self) -> Seq<char> {
        keychain_file(self@.metadata.identity)
    }

    open spec fn document(&self) -> Node {
        keychain_node(self@)
    }

    open spec fn decoded(tree: Node, read: Option<Self>) -> bool {
        match read {
            Some(chain) => keychain_of(tree) == Some(chain@) && chain@.well_formed(),
            None => keychain_of(tree) is None,
        }
    }

    fn filename(&self) -> (name: String) {
        keychain(self.metadata().identity.as_str())
    }

    fn encode(&self) -> (tree: Yaml) {
        self.to_yaml()
    }

    fn decode(tree: &Yaml) -> (read: Option<Self>) {
        Keychain::from_yaml(tree)
    }
}

impl Persistent for Keystore {
    open spec fn file(&self) -> Seq<char> {
        keystore_file()
    }

    open spec fn document(&self) -> Node {
        keystore_node(self@)
    }

    open spec fn decoded(tree: Node, read: Option<Self>) -> bool {
        match read {
            Some(store) => keystore_of(tree) == Some(store@),
            None => keystore_of(tree) is None,
        }
    }

    fn filename(&self) -> (name: String) {
        keystore()
    }

    fn encode(&self) -> (tree: Yaml) {
        self.to_yaml()
    }

    fn decode(tree: &Yaml) -> (read: Option<Self>) {
        Keystore::from_yaml(tree)
    }
}

impl<S> View for Store<S> {
    type V = Seq<char>;

    /// The root directory.
    closed spec fn view(&self) -> Seq<char> {
        self.root@
    }
}

/// The bytes that are written for a document: the UTF-8 of its YAML text,
/// if it has one.
pub open spec fn written(document: Node) -> Option<Seq<u8>> {
    if document.tags_named() {
        match yaml_text(document) {
            Some(text) => Some(encode_utf8(text)),
            None => None,
        }
    } else {
        None
    }
}

/// What `load` makes of the platform's answer at `path`: the platform's
/// failure as it stands, `Invalid` where the bytes are no YAML or no
/// document of the kind, else the document.
pub open spec fn read_as<T: Persistent>(
    outcome: Result<Vec<u8>, Failure>,
    path: Seq<char>,
    loaded: Result<T, Error>,
) -> bool {
    match outcome {
        Err(failure) => loaded matches Err(error) && error.cause == Cause::of(failure)
            && error.path@ == path,
        Ok(bytes) => match yaml_tree(bytes@) {
            None => refused(path, loaded),
            Some(tree) => match loaded {
                Ok(value) => T::decoded(tree, Some(value)),
                Err(_) => T::decoded(tree, None) && refused(path, loaded),
            },
        },
    }
}

impl<S: System> Store<S> {
    /// `done` is what `initialize` may return below `root`: what `mkdir`
    /// answers for the directory of the keychains, as `reported`.
    pub open spec fn made(root: Seq<char>, done: Result<(), Error>) -> bool {
        exists|outcome: Result<(), Failure>|
            S::mkdir_gives(joined(root, chains_dir()), outcome) && reported(
                outcome,
                joined(root, chains_dir()),
                done,
            )
    }

    /// `done` is what `init` may return for the document at `file` below
    /// `root`: `Invalid` where the document has no YAML text, else what
    /// `System::init` answers for the path and the bytes, as `reported`.
    pub open spec fn created(root: Seq<char>, file: Seq<char>, document: Node, done: Result<(), Error>) -> bool {
        match written(document) {
            None => refused(joined(root, file), done),
            Some(bytes) => exists|outcome: Result<(), Failure>|
                S::init_gives(joined(root, file), bytes, outcome) && reported(
                    outcome,
                    joined(root, file),
                    done,
                ),
        }
    }

    /// `done` is what `sync` may return for the document at `file` below
    /// `root`: `Invalid` where the document has no YAML text, else what
    /// `System::sync` answers for the path and the bytes, as `reported`.
    pub open spec fn replaced(root: Seq<char>, file: Seq<char>, document: Node, done: Result<(), Error>) -> bool {
        match written(document) {
            None => refused(joined(root, file), done),
            Some(bytes) => exists|outcome: Result<(), Failure>|
                S::sync_gives(joined(root, file), bytes, outcome) && reported(
                    outcome,
                    joined(root, file),
                    done,
                ),
        }
    }

    /// `loaded` is what `load` may return for `file` below `root`: what
    /// `read_as` makes of what `System::read` answers for that file.
    pub open spec fn loaded<T: Persistent>(root: Seq<char>, file: Seq<char>, loaded: Result<T, Error>) -> bool {
        exists|input: Input, outcome: Result<Vec<u8>, Failure>|
            {
                &&& input is File
                &&& input->File_0@ == joined(root, file)
                &&& S::read_gives(input, outcome)
                &&& read_as(outcome, joined(root, file), loaded)
            }
    }

    /// The store below `root`.
    pub fn new(root: String) -> (store: Self)
        ensures
            store@ == root@,
    {
        Store { root, sys: PhantomData }
    }

    /// Makes the directory of the keychains, and its parents, if they are
    /// not there.
    pub fn initialize(&self) -> (done: Result<(), Error>)
        ensures
            Self::made(self@, done),
    {
        let path = join(self.root.as_str(), "chains");
        let outcome = S::mkdir(path.as_str());
        let done = outcome.context(path.as_str());
        assert(S::mkdir_gives(joined(self@, chains_dir()), outcome) && reported(
            outcome,
            joined(self@, chains_dir()),
            done,
        ));
        done
    }

    /// Loads the keystore.
    pub fn keystore(&self) -> (loaded: Result<Keystore, Error>)
        ensures
            Self::loaded(self@, keystore_file(), loaded),
    {
        self.load(keystore().as_str())
    }

    /// Loads the keychain `name`.
    pub fn keychain(&self, name: &str) -> (loaded: Result<Keychain, Error>)
        ensures
            Self::loaded(self@, keychain_file(name@), loaded),
    {
        self.load(keychain(name).as_str())
    }

    /// Writes a new document through the platform's `init`, which does not
    /// write over a path that exists.
    pub fn init<T: Persistent>(&self, data: &T) -> (done: Result<(), Error>)
        ensures
            Self::created(self@, data.file(), data.document(), done),
    {
        let path = join(self.root.as_str(), data.filename().as_str());
        let text = match data.encode().emit() {
            Ok(text) => text,
            Err(words) => {
                return Err(invalid(words, path.as_str()));
            },
        };
        let outcome = S::init(path.as_str(), text.as_str().as_bytes());
        let done = outcome.context(path.as_str());
        assert(S::init_gives(joined(self@, data.file()), written(data.document())->0, outcome)
            && reported(outcome, joined(self@, data.file()), done));
        done
    }

    /// Writes a document in the place of its earlier state, through the
    /// platform's `sync`.
    pub fn sync<T: Persistent>(&self, data: &T) -> (done: Result<(), Error>)
        ensures
            Self::replaced(self@, data.file(), data.document(), done),
    {
        let path = join(self.root.as_str(), data.filename().as_str());
        let text = match data.encode().emit() {
            Ok(text) => text,
            Err(words) => {
                return Err(invalid(words, path.as_str()));
            },
        };
        let outcome = S::sync(path.as_str(), text.as_str().as_bytes());
        let done = outcome.context(path.as_str());
        assert(S::sync_gives(joined(self@, data.file()), written(data.document())->0, outcome)
            && reported(outcome, joined(self@, data.file()), done));
        done
    }

    /// Reads the document at `file`.
    pub fn load<T: Persistent>(&self, file: &str) -> (loaded: Result<T, Error>)
        ensures
            Self::loaded(self@, file@, loaded),
    {
        let path = join(self.root.as_str(), file);
        let input = Input::File(path.clone());
        let outcome = S::read(&input);
        let ghost answer = outcome;
        let loaded = match outcome {
            Err(failure) => Err(Error { cause: Cause::from(failure), path: path.clone() }),
            Ok(bytes) => match Yaml::parse(bytes.as_slice()) {
                Err(words) => Err(invalid(words, path.as_str())),
                Ok(tree) => match T::decode(&tree) {
                    Some(value) => Ok(value),
                    None => Err(invalid("not a document of this kind".to_owned(), path.as_str())),
                },
            },
        };
        assert(input is File && input->File_0@ == joined(self@, file@) && S::read_gives(input, answer)
            && read_as(answer, joined(self@, file@), loaded));
        loaded
    }
}

} // verus!
