//! The backend on the `openssl` crate. PKCS7 bundles are taken apart with
//! the `cms` crate, and their certificates handed to OpenSSL one by one.

pub mod iter;
pub mod parser;
pub mod result;

pub use iter::OpenSSLX509Iterator;
pub use parser::OpenSSLX509Parser;
pub use result::{OpenSSLX509IteratorError, OpenSSLX509IteratorResult};
