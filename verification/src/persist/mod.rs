pub use error::Cause;
pub use error::Context;
pub use error::Error;
pub use input::read;
pub use store::Persistent;
pub use store::Store;
pub use yaml::Yaml;

pub mod codec;
pub mod error;
pub mod input;
pub mod store;
pub mod yaml;
