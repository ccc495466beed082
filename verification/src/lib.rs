pub mod codec;
pub mod filter;
pub mod registry;
pub mod session;
