pub mod client;
pub mod types;

pub use client::LocationClient;
pub use types::Location;
