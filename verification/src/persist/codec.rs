//! The form of the two documents: how a keystore and a keychain stand in a
//! tree, and which trees are a keystore or a keychain.

use vstd::prelude::*;
use crate::keychain::key::Key;
use crate::keychain::key::KeyText;
use crate::keychain::keychain::holds;
use crate::keychain::keychain::sound;
use crate::keychain::keychain::Contents;
use crate::keychain::keychain::Entries;
use crate::keychain::keychain::Keychain;
use crate::keychain::keychain::Label;
use crate::keychain::keychain::Metadata;
use crate::keychain::password::Password;
use crate::keychain::password::Policy;
use crate::keychain::password::Static;
use crate::keychain::provider::Provider;
use crate::keystore::Keystore;
use crate::keystore::Registry;
use crate::secret::Secret;
use crate::text::same;
use super::yaml::Node;
use super::yaml::Yaml;

verus! {

/// The text nodes of `texts`, in their order.
pub open spec fn text_nodes(texts: Seq<Seq<char>>) -> Seq<Node> {
    Seq::new(texts.len(), |i: int| Node::Text(texts[i]))
}

/// The texts of `items`, if every item is a text.
pub open spec fn texts_of(items: Seq<Node>) -> Option<Seq<Seq<char>>> {
    if forall|i: int| 0 <= i < items.len() ==> #[trigger] items[i] is Text {
        Some(Seq::new(items.len(), |i: int| items[i]->Text_0))
    } else {
        None
    }
}

/// The node of a selection: the name, or a null where nothing is selected.
pub open spec fn selection_node(current: Option<Seq<char>>) -> Node {
    match current {
        Some(name) => Node::Text(name),
        None => Node::Null,
    }
}

/// The selection that a field holds: none where the field is absent or
/// null, the name where it is a text.
pub open spec fn selection_of(field: Option<Node>) -> Option<Option<Seq<char>>> {
    match field {
        None => Some(None),
        Some(Node::Null) => Some(None),
        Some(Node::Text(name)) => Some(Some(name)),
        _ => None,
    }
}

/// A keystore as a tree: a table of `version`, `keychains` and `current`.
pub open spec fn keystore_node(registry: Registry) -> Node {
    Node::Table(
        seq![
            (Node::Text("version"@), Node::Number(Some(registry.version))),
            (Node::Text("keychains"@), Node::List(text_nodes(registry.keychains))),
            (Node::Text("current"@), selection_node(registry.current)),
        ],
    )
}

/// The keystore that a tree holds: a table whose `version` is an unsigned
/// integer, whose `keychains` is a list of texts and whose `current`, if
/// there is one, is one of them. Other fields are passed over.
pub open spec fn keystore_of(node: Node) -> Option<Registry> {
    match node {
        Node::Table(entries) => match (
            Node::field(entries, "version"@),
            Node::field(entries, "keychains"@),
        ) {
            (Some(Node::Number(Some(version))), Some(Node::List(items))) => match (
                texts_of(items),
                selection_of(Node::field(entries, "current"@)),
            ) {
                (Some(keychains), Some(current)) => {
                    let registry = Registry { version, keychains, current };
                    if registry.well_formed() {
                        Some(registry)
                    } else {
                        None
                    }
                },
                _ => None,
            },
            _ => None,
        },
        _ => None,
    }
}

/// The names of the fields differ from one another.
pub proof fn lemma_field_names()
    ensures
        "version"@ != "keychains"@,
        "version"@ != "current"@,
        "keychains"@ != "current"@,
        "keychain"@ != "metadata"@,
        "keychain"@ != "provider"@,
        "metadata"@ != "provider"@,
        "identity"@ != "password"@,
        "!Secret"@ != "!Static"@,
        "!Secret"@ != "!String"@,
        "!Static"@ != "!String"@,
        "!SSH"@.len() > 0,
        "!Secret"@.len() > 0,
        "!Static"@.len() > 0,
        "!String"@.len() > 0,
{
    reveal_strlit("version");
    reveal_strlit("keychains");
    reveal_strlit("current");
    reveal_strlit("keychain");
    reveal_strlit("metadata");
    reveal_strlit("provider");
    reveal_strlit("identity");
    reveal_strlit("password");
    reveal_strlit("!SSH");
    reveal_strlit("!Secret");
    reveal_strlit("!Static");
    reveal_strlit("!String");
    assert("version"@[0] != "keychains"@[0]);
    assert("version"@[0] != "current"@[0]);
    assert("keychains"@[0] != "current"@[0]);
    assert("keychain"@[0] != "metadata"@[0]);
    assert("keychain"@[0] != "provider"@[0]);
    assert("identity"@[0] != "password"@[0]);
    assert("metadata"@[0] != "provider"@[0]);
    assert("!Secret"@[2] != "!Static"@[2]);
    assert("!Secret"@[2] != "!String"@[2]);
    assert("!Static"@[3] != "!String"@[3]);
}

/// The tree of a keystore has no tag at all.
pub proof fn lemma_keystore_tags(registry: Registry)
    ensures
        keystore_node(registry).tags_named(),
{
    let entries = keystore_node(registry)->Table_0;
    let items = text_nodes(registry.keychains);
    assert forall|i: int| 0 <= i < items.len() implies (#[trigger] items[i]).tags_named() by {}
    assert(Node::List(items).tags_named());
    assert forall|i: int| 0 <= i < entries.len() implies (#[trigger] entries[i]).0.tags_named()
        && entries[i].1.tags_named() by {}
}

/// A well-formed keystore, written as a tree and read back, is the same
/// keystore.
pub proof fn law_keystore_round_trip(registry: Registry)
    requires
        registry.well_formed(),
    ensures
        keystore_of(keystore_node(registry)) == Some(registry),
{
    lemma_field_names();
    let entries = keystore_node(registry)->Table_0;
    let rest = entries.drop_first();
    let last = rest.drop_first();
    assert(rest[0] == entries[1]);
    assert(last[0] == entries[2]);
    assert(Node::field(last, "current"@) == Some(entries[2].1));
    assert(Node::field(rest, "current"@) == Some(entries[2].1));
    assert(Node::field(rest, "keychains"@) == Some(entries[1].1));
    let items = text_nodes(registry.keychains);
    assert(texts_of(items)->0 =~= registry.keychains);
}

/// The texts of `items`, if every item is a text.
pub fn texts(items: &Vec<Yaml>) -> (read: Option<Vec<String>>)
    ensures
        match read {
            Some(texts) => texts_of(Yaml::List(*items)@->List_0) == Some(
                Seq::new(texts@.len(), |i: int| texts@[i]@),
            ),
            None => texts_of(Yaml::List(*items)@->List_0) is None,
        },
{
    let ghost nodes = Yaml::List(*items)@->List_0;
    let mut texts: Vec<String> = Vec::new();
    let mut i: usize = 0;
    while i < items.len()
        invariant
            i <= items@.len(),
            nodes == Yaml::List(*items)@->List_0,
            nodes.len() == items@.len(),
            forall|j: int| 0 <= j < nodes.len() ==> #[trigger] nodes[j] == items@[j]@,
            texts@.len() == i,
            forall|j: int| 0 <= j < i ==> #[trigger] nodes[j] == Node::Text(texts@[j]@),
        decreases items@.len() - i,
    {
        match &items[i] {
            Yaml::Text(name) => {
                texts.push(name.clone());
            },
            _ => {
                assert(!(nodes[i as int] is Text));
                return None;
            },
        }
        i += 1;
    }
    assert(texts_of(nodes)->0 =~= Seq::new(texts@.len(), |i: int| texts@[i]@));
    Some(texts)
}

impl Keystore {
    /// The keystore as a tree, which has no empty tag.
    pub fn to_yaml(&self) -> (tree: Yaml)
        ensures
            tree@ == keystore_node(self@),
            tree@.tags_named(),
    {
        proof {
            lemma_keystore_tags(self@);
        }
        let names = self.keychains();
        let mut items: Vec<Yaml> = Vec::new();
        let mut i: usize = 0;
        while i < names.len()
            invariant
                i <= names@.len(),
                items@.len() == i,
                forall|j: int| 0 <= j < i ==> (#[trigger] items@[j])@ == Node::Text(names@[j]@),
            decreases names@.len() - i,
        {
            items.push(Yaml::text(names[i].as_str()));
            i += 1;
        }
        let keychains = Yaml::list(items);
        let current = match self.selected() {
            Some(name) => Yaml::text(name.as_str()),
            None => Yaml::Null,
        };
        let version = Yaml::Number(Some(self.version()));
        assert(keychains@->List_0 =~= text_nodes(self@.keychains));
        let tree = Yaml::table(
            vec![
                (Yaml::text("version"), version),
                (Yaml::text("keychains"), keychains),
                (Yaml::text("current"), current),
            ],
        );
        assert(tree@->Table_0 =~= keystore_node(self@)->Table_0);
        tree
    }

    /// The keystore that the tree holds, if it holds one.
    pub fn from_yaml(tree: &Yaml) -> (read: Option<Keystore>)
        ensures
            match read {
                Some(store) => keystore_of(tree@) == Some(store@),
                None => keystore_of(tree@) is None,
            },
    {
        let entries = match tree {
            Yaml::Table(entries) => entries,
            _ => {
                return None;
            },
        };
        let version = match Yaml::field(entries, "version") {
            Some(Yaml::Number(Some(version))) => *version,
            _ => {
                return None;
            },
        };
        let items = match Yaml::field(entries, "keychains") {
            Some(Yaml::List(items)) => items,
            _ => {
                return None;
            },
        };
        let keychains = match texts(items) {
            Some(keychains) => keychains,
            None => {
                return None;
            },
        };
        let current = match Yaml::field(entries, "current") {
            None => None,
            Some(Yaml::Null) => None,
            Some(Yaml::Text(name)) => Some(name.clone()),
            _ => {
                return None;
            },
        };
        Keystore::assemble(version, keychains, current)
    }
}

/// A key as a tree: its text under the tag of its kind.
pub open spec fn key_node(key: KeyText) -> Node {
    Node::Tagged("!SSH"@, Box::new(Node::Text(key.text())))
}

/// The key that a tree holds: an OpenSSH private key under `!SSH`.
pub open spec fn key_of(node: Node) -> Option<KeyText> {
    match node {
        Node::Tagged(tag, inner) => match *inner {
            Node::Text(text) => if tag == "!SSH"@ && KeyText::SSH(text).well_formed() {
                Some(KeyText::SSH(text))
            } else {
                None
            },
            _ => None,
        },
        _ => None,
    }
}

/// The entries of a keychain as the entries of a table: each key under its
/// identifier.
pub open spec fn entry_nodes(entries: Entries) -> Seq<(Node, Node)> {
    Seq::new(entries.len(), |i: int| (Node::Text(entries[i].0), key_node(entries[i].1)))
}

/// The entries that a table holds: every value is a key, every name is the
/// identifier of its key, and no identifier stands twice.
pub open spec fn entries_of(items: Seq<(Node, Node)>) -> Option<Entries>
    decreases items.len(),
{
    if items.len() == 0 {
        Some(Entries::empty())
    } else {
        match (entries_of(items.drop_last()), items.last().0, key_of(items.last().1)) {
            (Some(before), Node::Text(id), Some(key)) => if key.id() == id && !holds(before, id) {
                Some(before.push((id, key)))
            } else {
                None
            },
            _ => None,
        }
    }
}

/// A password policy as a tree: what is kept, under the tag of its kind.
pub open spec fn policy_node(policy: Policy) -> Node {
    match policy {
        Policy::Secret(name) => Node::Tagged(
            "!Secret"@,
            Box::new(Node::Table(seq![(Node::Text("name"@), Node::Text(name))])),
        ),
        Policy::Static(hash) => Node::Tagged(
            "!Static"@,
            Box::new(Node::Table(seq![(Node::Text("hash"@), Node::Text(hash))])),
        ),
        Policy::String(text) => Node::Tagged("!String"@, Box::new(Node::Text(text))),
    }
}

/// The text under `name` in a table.
pub open spec fn text_field(node: Node, name: Seq<char>) -> Option<Seq<char>> {
    match node {
        Node::Table(entries) => match Node::field(entries, name) {
            Some(Node::Text(text)) => Some(text),
            _ => None,
        },
        _ => None,
    }
}

/// The password policy that a tree holds.
pub open spec fn policy_of(node: Node) -> Option<Policy> {
    match node {
        Node::Tagged(tag, inner) => if tag == "!Secret"@ {
            match text_field(*inner, "name"@) {
                Some(name) => Some(Policy::Secret(name)),
                None => None,
            }
        } else if tag == "!Static"@ {
            match text_field(*inner, "hash"@) {
                Some(hash) => Some(Policy::Static(hash)),
                None => None,
            }
        } else if tag == "!String"@ {
            match *inner {
                Node::Text(text) => Some(Policy::String(text)),
                _ => None,
            }
        } else {
            None
        },
        _ => None,
    }
}

/// A keychain's metadata as a tree: a table of `identity` and `password`.
pub open spec fn label_node(label: Label) -> Node {
    Node::Table(
        seq![
            (Node::Text("identity"@), Node::Text(label.identity)),
            (Node::Text("password"@), policy_node(label.password)),
        ],
    )
}

/// The metadata that a tree holds.
pub open spec fn label_of(node: Node) -> Option<Label> {
    match node {
        Node::Table(entries) => match (
            Node::field(entries, "identity"@),
            Node::field(entries, "password"@),
        ) {
            (Some(Node::Text(identity)), Some(password)) => match policy_of(password) {
                Some(password) => Some(Label { identity, password }),
                None => None,
            },
            _ => None,
        },
        _ => None,
    }
}

/// A provider as a tree: its name.
pub open spec fn provider_node(provider: Provider) -> Node {
    match provider {
        Provider::Local => Node::Text("Local"@),
    }
}

/// The provider that a tree names.
pub open spec fn provider_of(node: Node) -> Option<Provider> {
    if node == Node::Text("Local"@) {
        Some(Provider::Local)
    } else {
        None
    }
}

/// A keychain as a tree: a table of `keychain`, `metadata` and `provider`.
pub open spec fn keychain_node(chain: Contents) -> Node {
    Node::Table(
        seq![
            (Node::Text("keychain"@), Node::Table(entry_nodes(chain.entries))),
            (Node::Text("metadata"@), label_node(chain.metadata)),
            (Node::Text("provider"@), provider_node(chain.provider)),
        ],
    )
}

/// The keychain that a tree holds. Other fields are passed over.
pub open spec fn keychain_of(node: Node) -> Option<Contents> {
    match node {
        Node::Table(fields) => match (
            Node::field(fields, "keychain"@),
            Node::field(fields, "metadata"@),
            Node::field(fields, "provider"@),
        ) {
            (Some(Node::Table(items)), Some(metadata), Some(provider)) => match (
                entries_of(items),
                label_of(metadata),
                provider_of(provider),
            ) {
                (Some(entries), Some(metadata), Some(provider)) => Some(
                    Contents { entries, metadata, provider },
                ),
                _ => None,
            },
            _ => None,
        },
        _ => None,
    }
}

/// Entries that a table holds are those of a well-formed keychain.
pub proof fn lemma_entries_well_formed(items: Seq<(Node, Node)>)
    ensures
        entries_of(items) matches Some(entries) ==> entries.len() == items.len() && sound(entries),
    decreases items.len(),
{
    if items.len() > 0 {
        lemma_entries_well_formed(items.drop_last());
        if let Some(entries) = entries_of(items) {
            let before = entries_of(items.drop_last())->0;
            let id = items.last().0->Text_0;
            assert(entries == before.push((id, key_of(items.last().1)->0)));
            assert forall|i: int, j: int|
                0 <= i < entries.len() && 0 <= j < entries.len() && i != j implies #[trigger] entries[i].0
                != #[trigger] entries[j].0 by {
                if i < before.len() {
                    assert(before[i].0 == entries[i].0);
                }
                if j < before.len() {
                    assert(before[j].0 == entries[j].0);
                }
            }
            assert forall|i: int| 0 <= i < entries.len() implies (#[trigger] entries[i]).1.well_formed()
                && entries[i].0 == entries[i].1.id() by {
                if i < before.len() {
                    assert(before[i] == entries[i]);
                }
            }
        }
    }
}

/// A table whose beginning holds no entries holds none as a whole.
pub proof fn lemma_entries_prefix(items: Seq<(Node, Node)>, n: int)
    requires
        0 <= n <= items.len(),
        entries_of(items.take(n)) is None,
    ensures
        entries_of(items) is None,
    decreases items.len() - n,
{
    if n == items.len() {
        assert(items.take(n) =~= items);
    } else {
        assert(items.take(n + 1).drop_last() =~= items.take(n));
        lemma_entries_prefix(items, n + 1);
    }
}

/// The entries of a well-formed keychain, written as a table and read
/// back, are the same, up to every length.
pub proof fn lemma_entries_round_trip(entries: Entries, n: int)
    requires
        0 <= n <= entries.len(),
        sound(entries),
    ensures
        entries_of(entry_nodes(entries).take(n)) == Some(entries.take(n)),
    decreases n,
{
    let items = entry_nodes(entries).take(n);
    if n == 0 {
        assert(entries.take(0) =~= Entries::empty());
    } else {
        lemma_entries_round_trip(entries, n - 1);
        assert(items.drop_last() =~= entry_nodes(entries).take(n - 1));
        let before = entries.take(n - 1);
        let (id, key) = entries[n - 1];
        assert(items.last() == (Node::Text(id), key_node(key)));
        assert(entries[n - 1].1.well_formed());
        assert(KeyText::SSH(key.text()) == key);
        assert(key_of(key_node(key)) == Some(key));
        if holds(before, id) {
            let j = choose|j: int| 0 <= j < before.len() && #[trigger] before[j].0 == id;
            assert(entries[j].0 == entries[n - 1].0);
        }
        assert(before.push((id, key)) =~= entries.take(n));
    }
}

/// The tree of a keychain has no empty tag.
pub proof fn lemma_keychain_tags(chain: Contents)
    ensures
        keychain_node(chain).tags_named(),
{
    reveal_with_fuel(Node::tags_named, 3);
    lemma_field_names();
    let fields = keychain_node(chain)->Table_0;
    let items = entry_nodes(chain.entries);
    assert forall|i: int| 0 <= i < items.len() implies (#[trigger] items[i]).0.tags_named()
        && items[i].1.tags_named() by {
        assert(items[i].1 == key_node(chain.entries[i].1));
    }
    assert(Node::Table(items).tags_named());
    let label = label_node(chain.metadata)->Table_0;
    match chain.metadata.password {
        Policy::Secret(name) => {
            let inner = seq![(Node::Text("name"@), Node::Text(name))];
            assert forall|i: int| 0 <= i < inner.len() implies (#[trigger] inner[i]).0.tags_named()
                && inner[i].1.tags_named() by {}
            assert(Node::Table(inner).tags_named());
        },
        Policy::Static(hash) => {
            let inner = seq![(Node::Text("hash"@), Node::Text(hash))];
            assert forall|i: int| 0 <= i < inner.len() implies (#[trigger] inner[i]).0.tags_named()
                && inner[i].1.tags_named() by {}
            assert(Node::Table(inner).tags_named());
        },
        Policy::String(_) => {},
    }
    assert(policy_node(chain.metadata.password).tags_named());
    assert forall|i: int| 0 <= i < label.len() implies (#[trigger] label[i]).0.tags_named()
        && label[i].1.tags_named() by {}
    assert(label_node(chain.metadata).tags_named());
    assert forall|i: int| 0 <= i < fields.len() implies (#[trigger] fields[i]).0.tags_named()
        && fields[i].1.tags_named() by {}
}

/// A password policy, written as a tree and read back, is the same policy.
pub proof fn lemma_policy_round_trip(policy: Policy)
    ensures
        policy_of(policy_node(policy)) == Some(policy),
{
    lemma_field_names();
    match policy {
        Policy::Secret(name) => {
            let inner = seq![(Node::Text("name"@), Node::Text(name))];
            assert(Node::field(inner, "name"@) == Some(Node::Text(name)));
        },
        Policy::Static(hash) => {
            let inner = seq![(Node::Text("hash"@), Node::Text(hash))];
            assert(Node::field(inner, "hash"@) == Some(Node::Text(hash)));
        },
        Policy::String(_) => {},
    }
}

/// A well-formed keychain, written as a tree and read back, is the same
/// keychain: the same entries in the same order, the same metadata and the
/// same provider.
pub proof fn law_keychain_round_trip(chain: Contents)
    requires
        chain.well_formed(),
    ensures
        keychain_of(keychain_node(chain)) == Some(chain),
{
    lemma_field_names();
    let fields = keychain_node(chain)->Table_0;
    let rest = fields.drop_first();
    let last = rest.drop_first();
    assert(rest[0] == fields[1]);
    assert(last[0] == fields[2]);
    assert(Node::field(last, "provider"@) == Some(fields[2].1));
    assert(Node::field(rest, "provider"@) == Some(fields[2].1));
    assert(Node::field(rest, "metadata"@) == Some(fields[1].1));
    let label = label_node(chain.metadata)->Table_0;
    let tail = label.drop_first();
    assert(tail[0] == label[1]);
    assert(Node::field(tail, "password"@) == Some(label[1].1));
    lemma_policy_round_trip(chain.metadata.password);
    assert(label_of(label_node(chain.metadata)) == Some(chain.metadata));
    let items = entry_nodes(chain.entries);
    lemma_entries_round_trip(chain.entries, chain.entries.len() as int);
    assert(items.take(chain.entries.len() as int) =~= items);
    assert(chain.entries.take(chain.entries.len() as int) =~= chain.entries);
}

/// The key as a tree.
pub fn write_key(key: &Key) -> (tree: Yaml)
    ensures
        tree@ == key_node(key@),
{
    Yaml::tagged("!SSH", Yaml::text(key.openssh()))
}

/// The key that the tree holds, if it holds one.
pub fn read_key(tree: &Yaml) -> (read: Option<Key>)
    ensures
        match read {
            Some(key) => key_of(tree@) == Some(key@),
            None => key_of(tree@) is None,
        },
{
    proof {
        reveal_with_fuel(Yaml::node, 2);
    }
    match tree {
        Yaml::Tagged(tag, inner) => {
            let inner: &Yaml = &**inner;
            match inner {
                Yaml::Text(text) => if same(tag.as_str(), "!SSH") {
                    Key::from_openssh(text.clone())
                } else {
                    None
                },
                _ => None,
            }
        },
        _ => None,
    }
}

/// The text under `name` in a table.
pub fn read_text_field(tree: &Yaml, name: &str) -> (read: Option<String>)
    ensures
        match read {
            Some(text) => text_field(tree@, name@) == Some(text@),
            None => text_field(tree@, name@) is None,
        },
{
    match tree {
        Yaml::Table(entries) => match Yaml::field(entries, name) {
            Some(Yaml::Text(text)) => Some(text.clone()),
            _ => None,
        },
        _ => None,
    }
}

/// The password policy as a tree.
pub fn write_password(password: &Password) -> (tree: Yaml)
    ensures
        tree@ == policy_node(password@),
{
    match password {
        Password::Secret(secret) => {
            let inner = Yaml::table(vec![(Yaml::text("name"), Yaml::text(secret.name.as_str()))]);
            assert(inner@->Table_0 =~= seq![(Node::Text("name"@), Node::Text(secret@))]);
            Yaml::tagged("!Secret", inner)
        },
        Password::Static(kept) => {
            let inner = Yaml::table(vec![(Yaml::text("hash"), Yaml::text(kept.hash.as_str()))]);
            assert(inner@->Table_0 =~= seq![(Node::Text("hash"@), Node::Text(kept@))]);
            Yaml::tagged("!Static", inner)
        },
        Password::String(text) => Yaml::tagged("!String", Yaml::text(text.as_str())),
    }
}

/// The password policy that the tree holds, if it holds one.
pub fn read_password(tree: &Yaml) -> (read: Option<Password>)
    ensures
        match read {
            Some(password) => policy_of(tree@) == Some(password@),
            None => policy_of(tree@) is None,
        },
{
    proof {
        reveal_with_fuel(Yaml::node, 2);
    }
    match tree {
        Yaml::Tagged(tag, inner) => {
            let inner: &Yaml = &**inner;
            if same(tag.as_str(), "!Secret") {
                match read_text_field(inner, "name") {
                    Some(name) => Some(Password::Secret(Secret { name })),
                    None => None,
                }
            } else if same(tag.as_str(), "!Static") {
                match read_text_field(inner, "hash") {
                    Some(hash) => Some(Password::Static(Static { hash })),
                    None => None,
                }
            } else if same(tag.as_str(), "!String") {
                match inner {
                    Yaml::Text(text) => Some(Password::String(text.clone())),
                    _ => None,
                }
            } else {
                None
            }
        },
        _ => None,
    }
}

/// The metadata as a tree.
pub fn write_metadata(metadata: &Metadata) -> (tree: Yaml)
    ensures
        tree@ == label_node(metadata@),
{
    let tree = Yaml::table(
        vec![
            (Yaml::text("identity"), Yaml::text(metadata.identity.as_str())),
            (Yaml::text("password"), write_password(&metadata.password)),
        ],
    );
    assert(tree@->Table_0 =~= label_node(metadata@)->Table_0);
    tree
}

/// The metadata that the tree holds, if it holds any.
pub fn read_metadata(tree: &Yaml) -> (read: Option<Metadata>)
    ensures
        match read {
            Some(metadata) => label_of(tree@) == Some(metadata@),
            None => label_of(tree@) is None,
        },
{
    let entries = match tree {
        Yaml::Table(entries) => entries,
        _ => {
            return None;
        },
    };
    let identity = match Yaml::field(entries, "identity") {
        Some(Yaml::Text(identity)) => identity.clone(),
        _ => {
            return None;
        },
    };
    let password = match Yaml::field(entries, "password") {
        Some(password) => read_password(password),
        None => None,
    };
    match password {
        Some(password) => Some(Metadata { identity, password }),
        None => None,
    }
}

/// The provider as a tree.
pub fn write_provider(provider: Provider) -> (tree: Yaml)
    ensures
        tree@ == provider_node(provider),
{
    match provider {
        Provider::Local => Yaml::text("Local"),
    }
}

/// The provider that the tree names, if it names one.
pub fn read_provider(tree: &Yaml) -> (read: Option<Provider>)
    ensures
        read == provider_of(tree@),
{
    match tree {
        Yaml::Text(name) => if same(name.as_str(), "Local") {
            Some(Provider::Local)
        } else {
            None
        },
        _ => None,
    }
}

/// Adds to the empty `chain` the entries that the table holds, if it holds
/// entries.
fn read_entries(items: &Vec<(Yaml, Yaml)>, chain: Keychain) -> (read: Option<Keychain>)
    requires
        chain@.entries.len() == 0,
    ensures
        match read {
            Some(full) => {
                &&& entries_of(Yaml::Table(*items)@->Table_0) == Some(full@.entries)
                &&& full@.metadata == chain@.metadata
                &&& full@.provider == chain@.provider
                &&& full@.well_formed()
            },
            None => entries_of(Yaml::Table(*items)@->Table_0) is None,
        },
{
    let ghost nodes = Yaml::Table(*items)@->Table_0;
    let ghost empty = chain@;
    let mut chain = chain;
    assert(nodes.take(0) =~= Seq::empty());
    assert(chain@.entries =~= Entries::empty());
    let mut i: usize = 0;
    while i < items.len()
        invariant
            i <= items@.len(),
            nodes == Yaml::Table(*items)@->Table_0,
            nodes.len() == items@.len(),
            forall|j: int| 0 <= j < nodes.len() ==> #[trigger] nodes[j] == (items@[j].0@, items@[j].1@),
            entries_of(nodes.take(i as int)) == Some(chain@.entries),
            chain@.metadata == empty.metadata,
            chain@.provider == empty.provider,
        decreases items@.len() - i,
    {
        let ghost part = nodes.take(i + 1);
        let ghost before = chain@;
        proof {
            assert(part.drop_last() =~= nodes.take(i as int));
            assert(part.last() == nodes[i as int]);
            lemma_entries_well_formed(nodes.take(i as int));
        }
        let added = match (&items[i].0, read_key(&items[i].1)) {
            (Yaml::Text(id), Some(key)) => {
                let len = chain.len();
                proof {
                    crate::keychain::keychain::law_add(before, key@);
                }
                let made = chain.add(key);
                same(made.as_str(), id.as_str()) && chain.len() != len
            },
            _ => false,
        };
        if !added {
            proof {
                assert(entries_of(part) is None);
                lemma_entries_prefix(nodes, i + 1);
            }
            return None;
        }
        i += 1;
    }
    proof {
        assert(nodes.take(i as int) =~= nodes);
        lemma_entries_well_formed(nodes);
    }
    Some(chain)
}

impl Keychain {
    /// The keychain as a tree, which has no empty tag.
    pub fn to_yaml(&self) -> (tree: Yaml)
        ensures
            tree@ == keychain_node(self@),
            tree@.tags_named(),
    {
        proof {
            lemma_keychain_tags(self@);
        }
        let len = self.len();
        let mut items: Vec<(Yaml, Yaml)> = Vec::new();
        let mut i: usize = 0;
        while i < len
            invariant
                i <= len,
                len == self@.entries.len(),
                items@.len() == i,
                forall|j: int|
                    0 <= j < i ==> (#[trigger] items@[j]).0@ == Node::Text(self@.entries[j].0)
                        && items@[j].1@ == key_node(self@.entries[j].1),
            decreases len - i,
        {
            match self.entry(i) {
                Some((id, key)) => {
                    items.push((Yaml::text(id.as_str()), write_key(key)));
                },
                None => {},
            }
            i += 1;
        }
        let keys = Yaml::table(items);
        assert(keys@->Table_0 =~= entry_nodes(self@.entries));
        let tree = Yaml::table(
            vec![
                (Yaml::text("keychain"), keys),
                (Yaml::text("metadata"), write_metadata(self.metadata())),
                (Yaml::text("provider"), write_provider(self.provider())),
            ],
        );
        assert(tree@->Table_0 =~= keychain_node(self@)->Table_0);
        tree
    }

    /// The keychain that the tree holds, if it holds one. A keychain that
    /// was read is well-formed.
    pub fn from_yaml(tree: &Yaml) -> (read: Option<Keychain>)
        ensures
            match read {
                Some(chain) => keychain_of(tree@) == Some(chain@) && chain@.well_formed(),
                None => keychain_of(tree@) is None,
            },
    {
        let fields = match tree {
            Yaml::Table(fields) => fields,
            _ => {
                return None;
            },
        };
        let items = match Yaml::field(fields, "keychain") {
            Some(Yaml::Table(items)) => items,
            _ => {
                return None;
            },
        };
        let metadata = match Yaml::field(fields, "metadata") {
            Some(metadata) => metadata,
            None => {
                return None;
            },
        };
        let provider = match Yaml::field(fields, "provider") {
            Some(provider) => provider,
            None => {
                return None;
            },
        };
        match (read_metadata(metadata), read_provider(provider)) {
            (Some(metadata), Some(provider)) => read_entries(items, Keychain::new(metadata, provider)),
            _ => None,
        }
    }
}

} // verus!
