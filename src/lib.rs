pub mod error;
pub mod optional;
pub mod loader;
pub mod session;
pub mod kwargs;
pub mod foreign;
pub mod arguments;
pub mod bridge;
pub mod demos;
pub mod prompt;
