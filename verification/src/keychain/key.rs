//! Keys as a keychain holds them: sealed, in text, named by fingerprint.

use vstd::prelude::*;
use ssh_key::HashAlg;
use ssh_key::PrivateKey;
use crate::text::hex_lower;
use crate::text::is_hex_lower;
use crate::text::lemma_hex_lower;
use crate::text::to_hex;

verus! {

/// A key of a keychain. Each kind of key is a variant of its own, and a
/// document names the variant beside the key.
#[derive(Debug)]
pub enum Key {
    /// A private key in OpenSSH's text encoding.
    SSH(Pem),
}

/// An OpenSSH private key as PEM text, together with the identifier that
/// its public half gives it.
#[derive(Debug)]
pub struct Pem {
    text: String,
    id: String,
}

/// What a key holds: its kind and its text.
pub enum KeyText {
    SSH(Seq<char>),
}

/// The SHA-256 fingerprint of the public key inside the OpenSSH private key
/// `text`, or `None` where `text` is no such key.
pub uninterp spec fn openssh_digest(text: Seq<char>) -> Option<Seq<u8>>;

/// `PrivateKey::from_openssh` and, on the key it gives,
/// `fingerprint(HashAlg::Sha256)`: the bytes of the SHA-256 fingerprint of
/// the public key, which are 32, or `None` where the text does not parse.
#[verifier::external_body]
fn openssh_fingerprint(text: &str) -> (digest: Option<Vec<u8>>)
    ensures
        match digest {
            Some(bytes) => openssh_digest(text@) == Some(bytes@) && bytes@.len() == 32,
            None => openssh_digest(text@) is None,
        },
{
    match PrivateKey::from_openssh(text) {
        Ok(key) => Some(key.fingerprint(HashAlg::Sha256).as_bytes().to_vec()),
        Err(_) => None,
    }
}

impl KeyText {
    /// The text of the key.
    pub open spec fn text(self) -> Seq<char> {
        match self {
            KeyText::SSH(text) => text,
        }
    }

    /// The text is an OpenSSH private key.
    pub open spec fn well_formed(self) -> bool {
        openssh_digest(self.text()) matches Some(digest) && digest.len() == 32
    }

    /// The identifier of the key: the fingerprint of its public half in
    /// lowercase hexadecimal.
    pub open spec fn id(self) -> Seq<char> {
        hex_lower(openssh_digest(self.text())->0)
    }
}

/// An identifier as keys have them: 64 digits of lowercase hexadecimal.
pub open spec fn is_id(id: Seq<char>) -> bool {
    id.len() == 64 && is_hex_lower(id)
}

/// The identifier of a well-formed key is 64 digits of lowercase
/// hexadecimal.
pub proof fn lemma_id(key: KeyText)
    requires
        key.well_formed(),
    ensures
        is_id(key.id()),
{
    lemma_hex_lower(openssh_digest(key.text())->0);
}

impl Pem {
    #[verifier::type_invariant]
    closed spec fn sealed(self) -> bool {
        KeyText::SSH(self.text@).well_formed() && self.id@ == KeyText::SSH(self.text@).id()
    }
}

impl View for Key {
    type V = KeyText;

    closed spec fn view(&self) -> KeyText {
        match *self {
            Key::SSH(pem) => KeyText::SSH(pem.text@),
        }
    }
}

impl Key {
    /// The key that `text` encodes, if it is an OpenSSH private key.
    pub fn from_openssh(text: String) -> (made: Option<Key>)
        ensures
            match made {
                Some(key) => key@ == KeyText::SSH(text@) && key@.well_formed(),
                None => !KeyText::SSH(text@).well_formed(),
            },
    {
        match openssh_fingerprint(text.as_str()) {
            Some(digest) => {
                let id = to_hex(digest.as_slice());
                Some(Key::SSH(Pem { text, id }))
            },
            None => None,
        }
    }

    /// The key's text: the OpenSSH encoding of the private key.
    pub fn openssh(&self) -> (text: &str)
        ensures
            text@ == self@.text(),
    {
        match self {
            Key::SSH(pem) => pem.text.as_str(),
        }
    }

    /// The key's identifier: the SHA-256 fingerprint of its public half,
    /// as 64 digits of lowercase hexadecimal.
    pub fn id(&self) -> (id: String)
        ensures
            id@ == self@.id(),
            is_id(id@),
            self@.well_formed(),
    {
        match self {
            Key::SSH(pem) => {
                proof {
                    use_type_invariant(pem);
                    lemma_id(self@);
                }
                pem.id.clone()
            },
        }
    }
}

impl Clone for Key {
    fn clone(&self) -> (copy: Self)
        ensures
            copy@ == self@,
    {
        match self {
            Key::SSH(pem) => {
                proof {
                    use_type_invariant(pem);
                }
                Key::SSH(Pem { text: pem.text.clone(), id: pem.id.clone() })
            },
        }
    }
}

} // verus!
