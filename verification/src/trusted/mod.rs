//! What the library believes of the crates it calls.
//!
//! Nothing in this module is proved. Each item names the function it stands
//! for and says what is claimed of it; the rest of the library is verified
//! against these claims.

pub mod buffer;
pub mod header;
pub mod origin;
pub mod path;
pub mod pkcs7;
pub mod ssl;
pub mod text;
