//! Text helpers that identifiers and lookups share.

use vstd::prelude::*;
use vstd::string::StrSliceExecFns;
use vstd::string::StringExecFns;

verus! {

/// The sixteen digits of lowercase hexadecimal, by value.
pub open spec fn digits() -> Seq<char> {
    seq!['0', '1', '2', '3', '4', '5', '6', '7', '8', '9', 'a', 'b', 'c', 'd', 'e', 'f']
}

/// Lowercase hexadecimal of `bytes`: two digits for each byte, the high half
/// first.
pub open spec fn hex_lower(bytes: Seq<u8>) -> Seq<char> {
    Seq::new(
        2 * bytes.len(),
        |i: int|
            if i % 2 == 0 {
                digits()[bytes[i / 2] as int / 16]
            } else {
                digits()[bytes[i / 2] as int % 16]
            },
    )
}

/// Every character of `text` is a digit of lowercase hexadecimal.
pub open spec fn is_hex_lower(text: Seq<char>) -> bool {
    forall|i: int| 0 <= i < text.len() ==> digits().contains(#[trigger] text[i])
}

/// Hexadecimal of `n` bytes has `2 n` characters, all of them lowercase
/// hexadecimal digits.
pub proof fn lemma_hex_lower(bytes: Seq<u8>)
    ensures
        hex_lower(bytes).len() == 2 * bytes.len(),
        is_hex_lower(hex_lower(bytes)),
{
    let text = hex_lower(bytes);
    assert forall|i: int| 0 <= i < text.len() implies digits().contains(#[trigger] text[i]) by {
        let byte = bytes[i / 2] as int;
        let digit = if i % 2 == 0 {
            byte / 16
        } else {
            byte % 16
        };
        assert(0 <= digit < 16);
        assert(text[i] == digits()[digit]);
    }
}

/// `hex::encode`: the lowercase hexadecimal of `bytes`, two digits for each
/// byte, as the crate documents it.
#[verifier::external_body]
fn hex_encode(bytes: &[u8]) -> (text: String)
    ensures
        text@ == hex_lower(bytes@),
{
    hex::encode(bytes)
}

/// Lowercase hexadecimal of `bytes`.
pub fn to_hex(bytes: &[u8]) -> (text: String)
    ensures
        text@ == hex_lower(bytes@),
        text@.len() == 2 * bytes@.len(),
        is_hex_lower(text@),
{
    proof {
        lemma_hex_lower(bytes@);
    }
    hex_encode(bytes)
}

/// `str::starts_with` for a string pattern: whether `prefix` matches the
/// beginning of `text`.
#[verifier::external_body]
fn str_starts_with(text: &str, prefix: &str) -> (yes: bool)
    ensures
        yes == prefix@.is_prefix_of(text@),
{
    text.starts_with(prefix)
}

/// Whether `text` begins with `prefix`.
pub fn starts_with(text: &str, prefix: &str) -> (yes: bool)
    ensures
        yes == prefix@.is_prefix_of(text@),
{
    str_starts_with(text, prefix)
}

/// Whether the two texts are the same, character for character.
pub fn same(left: &str, right: &str) -> (same: bool)
    ensures
        same == (left@ == right@),
{
    let same = starts_with(left, right) && starts_with(right, left);
    proof {
        if same {
            assert(left@ =~= right@);
        }
    }
    same
}

/// The path of `rest` below the directory `root`: `rest` itself where
/// `root` is empty, else both with one `/` between them.
pub open spec fn joined(root: Seq<char>, rest: Seq<char>) -> Seq<char> {
    if root.len() == 0 {
        rest
    } else if root.last() == '/' {
        root + rest
    } else {
        root + seq!['/'] + rest
    }
}

/// The path of `rest` below the directory `root`.
pub fn join(root: &str, rest: &str) -> (path: String)
    ensures
        path@ == joined(root@, rest@),
{
    let len = root.unicode_len();
    if len == 0 {
        return rest.to_owned();
    }
    let mut path = root.to_owned();
    if root.get_char(len - 1) != '/' {
        proof {
            reveal_strlit("/");
            assert("/"@ =~= seq!['/']);
        }
        path.append("/");
    }
    path.append(rest);
    path
}

} // verus!
