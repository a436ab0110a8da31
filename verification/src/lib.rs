//! A local vault for SSH signing keys: the keystore that names the keychains,
//! the keychains that hold the encrypted keys, the password that protects
//! them, and the store that keeps both on disk.

pub use crate::keychain::Key;
pub use crate::keychain::Keychain;
pub use crate::keychain::Metadata;
pub use crate::keychain::Password;
pub use crate::keychain::Provider;
pub use crate::keystore::Keystore;
pub use crate::passphrase::Passphrase;
pub use crate::secret::Secret;
pub use crate::signet::Signet;
pub use crate::system::Failure;
pub use crate::system::FailureKind;
pub use crate::system::Input;
pub use crate::system::System;

pub mod args;
pub mod command;
pub mod keychain;
pub mod keystore;
pub mod passphrase;
pub mod persist;
pub mod platform;
pub mod secret;
pub mod signet;
pub mod system;
pub mod text;
