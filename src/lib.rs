pub mod config;
pub mod count;
pub mod record;
pub mod tally;

pub use config::Config;
pub use count::{count, ReadFailure};
pub use record::FileInfo;
pub use tally::{RunError, Tally};
