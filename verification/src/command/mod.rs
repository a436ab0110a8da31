pub use error::Error;
pub use init::init;
pub use keys::keys;
pub use sign::sign;
pub use verify::verify;

pub mod error;
pub mod init;
pub mod keys;
pub mod sign;
pub mod ssh;
pub mod verify;
