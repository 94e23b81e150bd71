//! The backends that come with the library.

pub mod debug;
pub mod default;
pub mod ssl;
