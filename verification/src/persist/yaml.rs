//! Documents as trees, and their YAML text.

use vstd::prelude::*;
use serde_yaml::value::Tag;
use serde_yaml::value::TaggedValue;
use serde_yaml::Value;

verus! {

#[verifier::external_type_specification]
#[verifier::external_body]
pub struct ExValue(Value);

/// A YAML document as a tree.
#[derive(Debug)]
pub enum Yaml {
    Null,
    Bool(bool),
    /// An unsigned integer; `None` stands for any other number, which no
    /// document of the vault holds.
    Number(Option<u64>),
    Text(String),
    List(Vec<Yaml>),
    /// Keys and values in the order of the document.
    Table(Vec<(Yaml, Yaml)>),
    /// A tag, written with its leading `!`, and the value that carries it.
    Tagged(String, Box<Yaml>),
}

/// What a tree holds.
pub enum Node {
    Null,
    Bool(bool),
    Number(Option<u64>),
    Text(Seq<char>),
    List(Seq<Node>),
    Table(Seq<(Node, Node)>),
    Tagged(Seq<char>, Box<Node>),
}

impl Yaml {
    /// What the tree holds.
    pub open spec fn node(&self) -> Node
        decreases self,
    {
        match self {
            Yaml::Null => Node::Null,
            Yaml::Bool(b) => Node::Bool(*b),
            Yaml::Number(n) => Node::Number(*n),
            Yaml::Text(text) => Node::Text(text@),
            Yaml::List(items) => Node::List(
                Seq::new(
                    items@.len(),
                    |i: int|
                        if 0 <= i < items@.len() {
                            items@[i].node()
                        } else {
                            Node::Null
                        },
                ),
            ),
            Yaml::Table(entries) => Node::Table(
                Seq::new(
                    entries@.len(),
                    |i: int|
                        if 0 <= i < entries@.len() {
                            (entries@[i].0.node(), entries@[i].1.node())
                        } else {
                            (Node::Null, Node::Null)
                        },
                ),
            ),
            Yaml::Tagged(tag, inner) => Node::Tagged(tag@, Box::new(inner.node())),
        }
    }
}

impl View for Yaml {
    type V = Node;

    open spec fn view(&self) -> Node {
        self.node()
    }
}

impl Node {
    /// No tag in the tree is empty: YAML has no way to write an empty tag.
    pub open spec fn tags_named(self) -> bool
        decreases self,
    {
        match self {
            Node::List(items) => forall|i: int|
                0 <= i < items.len() ==> (#[trigger] items[i]).tags_named(),
            Node::Table(entries) => forall|i: int|
                0 <= i < entries.len() ==> (#[trigger] entries[i]).0.tags_named()
                    && entries[i].1.tags_named(),
            Node::Tagged(tag, inner) => tag.len() > 0 && inner.tags_named(),
            _ => true,
        }
    }

    /// The value under the first key of `entries` that is the text `name`.
    pub open spec fn field(entries: Seq<(Node, Node)>, name: Seq<char>) -> Option<Node>
        decreases entries.len(),
    {
        if entries.len() == 0 {
            None
        } else if entries[0].0 == Node::Text(name) {
            Some(entries[0].1)
        } else {
            Node::field(entries.drop_first(), name)
        }
    }
}

/// The YAML text that `serde_yaml` gives for a tree, or `None` where it
/// refuses the tree.
pub uninterp spec fn yaml_text(tree: Node) -> Option<Seq<char>>;

/// The tree that `serde_yaml` reads from YAML text, or `None` where the
/// bytes are no single YAML document.
pub uninterp spec fn yaml_tree(bytes: Seq<u8>) -> Option<Node>;

/// The `serde_yaml::Value` of the same shape as the tree, variant for
/// variant. A number that is no unsigned integer becomes a null; a tag is
/// made with `Tag::new`, which does not take an empty one.
#[verifier::external_body]
fn to_value(tree: &Yaml) -> (value: Value)
    requires
        tree@.tags_named(),
{
    match tree {
        Yaml::Null | Yaml::Number(None) => Value::Null,
        Yaml::Bool(b) => Value::Bool(*b),
        Yaml::Number(Some(n)) => Value::Number((*n).into()),
        Yaml::Text(text) => Value::String(text.clone()),
        Yaml::List(items) => Value::Sequence(items.iter().map(to_value).collect()),
        Yaml::Table(entries) => Value::Mapping(
            entries.iter().map(|(k, v)| (to_value(k), to_value(v))).collect(),
        ),
        Yaml::Tagged(tag, inner) => Value::Tagged(
            Box::new(TaggedValue { tag: Tag::new(tag), value: to_value(inner) }),
        ),
    }
}

/// The tree of the same shape as the `serde_yaml::Value`, variant for
/// variant. A tag is taken as `Tag` displays it, with its leading `!`.
#[verifier::external_body]
fn from_value(value: Value) -> (tree: Yaml)
    ensures
        tree@.tags_named(),
{
    match value {
        Value::Null => Yaml::Null,
        Value::Bool(b) => Yaml::Bool(b),
        Value::Number(n) => Yaml::Number(n.as_u64()),
        Value::String(text) => Yaml::Text(text),
        Value::Sequence(items) => Yaml::List(items.into_iter().map(from_value).collect()),
        Value::Mapping(entries) => Yaml::Table(
            entries.into_iter().map(|(k, v)| (from_value(k), from_value(v))).collect(),
        ),
        Value::Tagged(tagged) => Yaml::Tagged(
            tagged.tag.to_string(),
            Box::new(from_value(tagged.value)),
        ),
    }
}

/// `serde_yaml::to_string` on the value of the tree's shape: the YAML
/// text, or the words of the crate's error.
#[verifier::external_body]
fn yaml_to_string(tree: &Yaml) -> (text: Result<String, String>)
    requires
        tree@.tags_named(),
    ensures
        match text {
            Ok(text) => yaml_text(tree@) == Some(text@),
            Err(_) => yaml_text(tree@) is None,
        },
{
    serde_yaml::to_string(&to_value(tree)).map_err(|error| error.to_string())
}

/// `serde_yaml::from_slice` for a `serde_yaml::Value`, as the tree of the
/// value's shape: what the bytes hold, or the words of the crate's error.
#[verifier::external_body]
fn yaml_from_slice(bytes: &[u8]) -> (tree: Result<Yaml, String>)
    ensures
        match tree {
            Ok(tree) => yaml_tree(bytes@) == Some(tree@) && tree@.tags_named(),
            Err(_) => yaml_tree(bytes@) is None,
        },
{
    serde_yaml::from_slice::<Value>(bytes).map(from_value).map_err(|error| error.to_string())
}

impl Yaml {
    /// A text node.
    pub fn text(text: &str) -> (node: Yaml)
        ensures
            node@ == Node::Text(text@),
    {
        Yaml::Text(text.to_owned())
    }

    /// A list of `items`.
    pub fn list(items: Vec<Yaml>) -> (node: Yaml)
        ensures
            node@ matches Node::List(nodes) && nodes.len() == items@.len() && forall|i: int|
                0 <= i < nodes.len() ==> #[trigger] nodes[i] == items@[i]@,
    {
        Yaml::List(items)
    }

    /// A table of `entries`.
    pub fn table(entries: Vec<(Yaml, Yaml)>) -> (node: Yaml)
        ensures
            node@ matches Node::Table(nodes) && nodes.len() == entries@.len() && forall|i: int|
                0 <= i < nodes.len() ==> #[trigger] nodes[i] == (entries@[i].0@, entries@[i].1@),
    {
        Yaml::Table(entries)
    }

    /// `inner` under `tag`.
    pub fn tagged(tag: &str, inner: Yaml) -> (node: Yaml)
        ensures
            node@ == Node::Tagged(tag@, Box::new(inner@)),
    {
        Yaml::Tagged(tag.to_owned(), Box::new(inner))
    }

    /// Whether no tag in the tree is empty.
    pub fn tags_named(&self) -> (named: bool)
        ensures
            named == self@.tags_named(),
        decreases self,
    {
        match self {
            Yaml::List(items) => {
                let mut i: usize = 0;
                while i < items.len()
                    invariant
                        i <= items@.len(),
                        self == Yaml::List(*items),
                        forall|j: int| 0 <= j < i ==> (#[trigger] items@[j])@.tags_named(),
                    decreases items@.len() - i,
                {
                    if !items[i].tags_named() {
                        assert(!(self@->List_0[i as int]).tags_named());
                        return false;
                    }
                    i += 1;
                }
                true
            },
            Yaml::Table(entries) => {
                let mut i: usize = 0;
                while i < entries.len()
                    invariant
                        i <= entries@.len(),
                        self == Yaml::Table(*entries),
                        forall|j: int|
                            0 <= j < i ==> (#[trigger] entries@[j]).0@.tags_named()
                                && entries@[j].1@.tags_named(),
                    decreases entries@.len() - i,
                {
                    if !entries[i].0.tags_named() || !entries[i].1.tags_named() {
                        assert(!(self@->Table_0[i as int]).0.tags_named() || !(
                        self@->Table_0[i as int]).1.tags_named());
                        return false;
                    }
                    i += 1;
                }
                assert forall|j: int| 0 <= j < self@->Table_0.len() implies (
                #[trigger] self@->Table_0[j]).0.tags_named() && self@->Table_0[j].1.tags_named() by {
                    assert(entries@[j].0@.tags_named());
                }
                true
            },
            Yaml::Tagged(tag, inner) => !tag.as_str().is_empty() && inner.tags_named(),
            _ => true,
        }
    }

    /// The YAML text of the tree. A tree with an empty tag has none.
    pub fn emit(&self) -> (text: Result<String, String>)
        ensures
            match text {
                Ok(text) => self@.tags_named() && yaml_text(self@) == Some(text@),
                Err(_) => !self@.tags_named() || yaml_text(self@) is None,
            },
    {
        if self.tags_named() {
            yaml_to_string(self)
        } else {
            Err("empty tag".to_owned())
        }
    }

    /// The tree that the YAML text in `bytes` holds; it has no empty tag.
    pub fn parse(bytes: &[u8]) -> (tree: Result<Yaml, String>)
        ensures
            match tree {
                Ok(tree) => yaml_tree(bytes@) == Some(tree@) && tree@.tags_named(),
                Err(_) => yaml_tree(bytes@) is None,
            },
    {
        yaml_from_slice(bytes)
    }

    /// The value under the first key of `entries` that is the text `name`.
    pub fn field<'a>(entries: &'a Vec<(Yaml, Yaml)>, name: &str) -> (value: Option<&'a Yaml>)
        ensures
            match value {
                Some(value) => Node::field(Yaml::Table(*entries)@->Table_0, name@) == Some(value@),
                None => Node::field(Yaml::Table(*entries)@->Table_0, name@) is None,
            },
    {
        let ghost all = Yaml::Table(*entries)@->Table_0;
        assert(all.skip(0) =~= all);
        let mut i: usize = 0;
        while i < entries.len()
            invariant
                i <= entries@.len(),
                all == Yaml::Table(*entries)@->Table_0,
                all.len() == entries@.len(),
                forall|j: int|
                    0 <= j < all.len() ==> #[trigger] all[j] == (entries@[j].0@, entries@[j].1@),
                Node::field(all, name@) == Node::field(all.skip(i as int), name@),
            decreases entries@.len() - i,
        {
            let ghost rest = all.skip(i as int);
            assert(rest[0] == all[i as int]);
            assert(rest.drop_first() =~= all.skip(i + 1));
            let found = match &entries[i].0 {
                Yaml::Text(key) => crate::text::same(key.as_str(), name),
                _ => false,
            };
            assert(found == (rest[0].0 == Node::Text(name@)));
            if found {
                assert(Node::field(rest, name@) == Some(rest[0].1));
                assert(rest[0].1 == entries@[i as int].1@);
                return Some(&entries[i].1);
            }
            i += 1;
        }
        assert(all.skip(i as int).len() == 0);
        None
    }
}

} // verus!
