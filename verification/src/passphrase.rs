//! Unlock strings that do not outlive their use in memory.

use vstd::prelude::*;
use zeroize::Zeroize;

verus! {

/// An unlock string in clear. Its text is overwritten with zeros when the
/// value is dropped.
pub struct Passphrase {
    text: String,
}

impl View for Passphrase {
    type V = Seq<char>;

    closed spec fn view(&self) -> Seq<char> {
        self.text@
    }
}

/// `Zeroize::zeroize` for a `String`: overwrites the bytes of the text with
/// zeros and leaves the string empty.
#[verifier::external_body]
fn zeroize(text: &mut String)
    ensures
        final(text)@.len() == 0,
    opens_invariants none
    no_unwind
{
    text.zeroize()
}

impl Passphrase {
    /// Takes `text` into safekeeping.
    pub fn new(text: String) -> (passphrase: Passphrase)
        ensures
            passphrase@ == text@,
    {
        Passphrase { text }
    }

    /// The text.
    pub fn as_str(&self) -> (text: &str)
        ensures
            text@ == self@,
    {
        self.text.as_str()
    }

    /// Overwrites the text with zeros now, and leaves it empty.
    pub fn clear(&mut self)
        ensures
            final(self)@.len() == 0,
    {
        zeroize(&mut self.text);
    }

    /// Whether both hold the same text, character for character.
    pub fn same(&self, other: &Passphrase) -> (same: bool)
        ensures
            same == (self@ == other@),
    {
        self.text == other.text
    }
}

impl Drop for Passphrase {
    fn drop(&mut self)
        opens_invariants none
        no_unwind
    {
        zeroize(&mut self.text);
    }
}

} // verus!
