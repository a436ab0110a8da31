pub use key::Key;
pub use keychain::Error;
pub use keychain::Keychain;
pub use keychain::Metadata;
pub use password::Password;
pub use password::Static;
pub use provider::Provider;

pub mod key;
pub mod keychain;
pub mod password;
pub mod provider;
