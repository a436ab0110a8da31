//! The key library at work: making, sealing and opening private keys,
//! signing and verifying. Nothing is known of a key or a signature but what
//! the library answers.

use vstd::prelude::*;
use rand_core::OsRng;
use ssh_key::Algorithm;
use ssh_key::HashAlg;
use ssh_key::LineEnding;
use ssh_key::PrivateKey;
use ssh_key::SshSig;

verus! {

#[verifier::external_type_specification]
#[verifier::external_body]
pub struct ExPrivateKey(PrivateKey);

#[verifier::external_type_specification]
#[verifier::external_body]
pub struct ExSshSig(SshSig);

/// `PrivateKey::random` for Ed25519 with the system's random source: a new
/// private key, or the words of the crate's error.
#[verifier::external_body]
pub(crate) fn random() -> (key: Result<PrivateKey, String>) {
    PrivateKey::random(OsRng, Algorithm::Ed25519).map_err(|error| error.to_string())
}

/// `PrivateKey::encrypt` with the system's random source: the key sealed
/// under `password`, or the words of the crate's error, which it gives for
/// a key that is sealed already.
#[verifier::external_body]
pub(crate) fn encrypt(key: &PrivateKey, password: &str) -> (sealed: Result<PrivateKey, String>) {
    key.encrypt(OsRng, password).map_err(|error| error.to_string())
}

/// `PrivateKey::decrypt`: the key opened with `password`, or the words of
/// the crate's error, which it gives for a wrong password and for a key
/// that is not sealed.
#[verifier::external_body]
pub(crate) fn decrypt(key: &PrivateKey, password: &str) -> (opened: Result<PrivateKey, String>) {
    key.decrypt(password).map_err(|error| error.to_string())
}

/// `PrivateKey::is_encrypted`: whether the key is sealed.
#[verifier::external_body]
pub(crate) fn is_encrypted(key: &PrivateKey) -> (sealed: bool) {
    key.is_encrypted()
}

/// `PrivateKey::from_openssh`: the private key that the OpenSSH text in
/// `pem` encodes, or the words of the crate's error.
#[verifier::external_body]
pub(crate) fn from_openssh(pem: &[u8]) -> (key: Result<PrivateKey, String>) {
    PrivateKey::from_openssh(pem).map_err(|error| error.to_string())
}

/// `PrivateKey::to_openssh` with the platform's line ending: the key in
/// OpenSSH's text encoding, or the words of the crate's error.
#[verifier::external_body]
pub(crate) fn to_openssh(key: &PrivateKey) -> (pem: Result<String, String>) {
    match key.to_openssh(LineEnding::default()) {
        Ok(pem) => Ok(pem.to_string()),
        Err(error) => Err(error.to_string()),
    }
}

/// `PublicKey::to_openssh` on the key's public half: the public key in
/// OpenSSH's one-line encoding, or the words of the crate's error.
#[verifier::external_body]
pub(crate) fn public_openssh(key: &PrivateKey) -> (line: Result<String, String>) {
    key.public_key().to_openssh().map_err(|error| error.to_string())
}

/// `PrivateKey::sign` with SHA-256: the signature of `message` bound to
/// `namespace`, or the words of the crate's error, which it gives for a
/// sealed key and, before it looks at the key, for an empty namespace.
#[verifier::external_body]
pub(crate) fn sign(key: &PrivateKey, namespace: &str, message: &[u8]) -> (signature: Result<
    SshSig,
    String,
>)
    ensures
        namespace@.len() == 0 ==> signature is Err,
{
    key.sign(namespace, HashAlg::Sha256, message).map_err(|error| error.to_string())
}

/// `PublicKey::verify` on the key's public half: success where the
/// signature is one of this key over `message` in `namespace`, else the
/// words of the crate's error.
#[verifier::external_body]
pub(crate) fn verify(key: &PrivateKey, namespace: &str, message: &[u8], signature: &SshSig) -> (good:
    Result<(), String>) {
    key.public_key().verify(namespace, message, signature).map_err(|error| error.to_string())
}

/// The line with which the PEM text of a signature begins.
pub open spec fn signature_header() -> Seq<char> {
    "-----BEGIN SSH SIGNATURE-----"@
}

/// `SshSig::to_pem` with the platform's line ending: the signature as PEM
/// text, which begins with `-----BEGIN SSH SIGNATURE-----` as the crate
/// documents, or the words of the crate's error.
#[verifier::external_body]
pub(crate) fn signature_to_pem(signature: &SshSig) -> (pem: Result<String, String>)
    ensures
        pem matches Ok(text) ==> signature_header().is_prefix_of(text@),
{
    signature.to_pem(LineEnding::default()).map_err(|error| error.to_string())
}

/// `SshSig::from_pem`: the signature that the PEM text encodes, or the
/// words of the crate's error.
#[verifier::external_body]
pub(crate) fn signature_from_pem(pem: &[u8]) -> (signature: Result<SshSig, String>) {
    SshSig::from_pem(pem).map_err(|error| error.to_string())
}

/// The SHA-256 fingerprint of the signer's public key, which the signature
/// carries: its 32 bytes.
#[verifier::external_body]
pub(crate) fn signer_digest(signature: &SshSig) -> (digest: Vec<u8>)
    ensures
        digest@.len() == 32,
{
    signature.public_key().fingerprint(HashAlg::Sha256).as_bytes().to_vec()
}

/// The SHA-256 fingerprint of the signer's public key as `Fingerprint`
/// displays it: `SHA256:` and the digest in Base64.
#[verifier::external_body]
pub(crate) fn signer_fingerprint(signature: &SshSig) -> (text: String) {
    signature.public_key().fingerprint(HashAlg::Sha256).to_string()
}

} // verus!
