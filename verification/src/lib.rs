//! Acquires X.509 certificates from a file or network origin and decodes them,
//! whatever wire format they arrive in.
//!
//! The library holds the decisions: which format a payload's metadata suggests,
//! which decoders a parse consults and in what order, which origins may be read,
//! and when a download has grown too large. Reading files and talking to
//! servers is left to the caller, who hands over what was read.

pub mod api;
pub mod client;
pub mod format;
pub mod parse;
pub mod provided;
pub mod result;
pub mod trusted;

pub use api::{X509Iterator, X509IteratorError};
pub use client::{Download, Transport, X509Client, X509ClientConfiguration};
pub use format::X509Type;
pub use parse::{ParseFailure, X509Parse};
pub use result::{X509ClientError, X509ClientResult};
