//! The backend on the `cms` and `x509-cert` crates.

pub mod iter;
pub mod parser;
pub mod result;

pub use crate::trusted::pkcs7::Certificate;
pub use iter::DefaultX509Iterator;
pub use parser::DefaultX509Parser;
pub use result::{DefaultX509IteratorError, DefaultX509IteratorResult};
