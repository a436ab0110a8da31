pub use error::Error;

pub mod secret;
pub mod system;

mod error;
