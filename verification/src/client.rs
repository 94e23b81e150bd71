//! The client: which origins may be read, what a response amounts to, and
//! when a download has grown too large.
//!
//! Nothing here reads a file or talks to a server. The caller does that and
//! hands over what it got: the URL, the status and headers of a response, the
//! chunks of a body as they arrive, the bytes of a file.

use crate::api::X509Iterator;
use crate::format::{extension_hint, headers_hint, X509Type};
use crate::parse::{parse_returns, X509Parse};
use crate::result::{X509ClientError, X509ClientResult};
use crate::trusted::buffer::{
    as_slice, buffer_content, buffer_len, bytes_content, empty_buffer, extend_from_slice, freeze,
};
use crate::trusted::header::header_values;
use crate::trusted::origin::{as_str, scheme, to_file_path, url_scheme, url_text};
use crate::trusted::path::path_extension;
use bytes::{Bytes, BytesMut};
use http::HeaderMap;
use std::path::PathBuf;
use url::Url;
use vstd::prelude::*;
use vstd::string::StringExecFns;

verus! {

/// What a client is set up with.
#[derive(Clone, Copy, Debug)]
pub struct X509ClientConfiguration {
    /// If true, only attempt parse once, going by the file extension or the
    /// content type. If false, attempt every known format before failing.
    pub strict: bool,
    /// If true, allow the `file` scheme. If false, `file` origins fail.
    pub files: bool,
    /// The most bytes that a download may hold. If `None`, apply no limit.
    pub limit: Option<usize>,
}

impl Default for X509ClientConfiguration {
    /// Relaxed parsing, no `file` origins, no limit.
    fn default() -> (config: Self)
        ensures
            config == (X509ClientConfiguration { strict: false, files: false, limit: None }),
    {
        X509ClientConfiguration { strict: false, files: false, limit: None }
    }
}

/// Where the bytes of an origin are to be read from.
#[derive(Debug)]
pub enum Transport {
    /// From the local file at this path.
    File(PathBuf),
    /// From the server that the URL names, with a GET request.
    Network,
}

/// The most bytes that a download with this limit may hold: the limit, and
/// where there is none, as much as can be addressed.
pub open spec fn ceiling(limit: Option<usize>) -> usize {
    match limit {
        Some(max) => max,
        None => usize::MAX,
    }
}

/// What a download that holds `body` holds once `chunk` has arrived, or
/// `None` where that is more than the ceiling.
pub open spec fn extended(limit: Option<usize>, body: Seq<u8>, chunk: Seq<u8>) -> Option<Seq<u8>> {
    if body.len() + chunk.len() <= ceiling(limit) {
        Some(body + chunk)
    } else {
        None
    }
}

/// What a download holds once `chunks` have arrived one after the other, or
/// `None` where one of them took it past the ceiling.
pub open spec fn received_after(limit: Option<usize>, chunks: Seq<Seq<u8>>) -> Option<Seq<u8>>
    decreases chunks.len(),
{
    if chunks.len() == 0 {
        Some(Seq::empty())
    } else {
        match received_after(limit, chunks.drop_last()) {
            Some(body) => extended(limit, body, chunks.last()),
            None => None,
        }
    }
}

/// The chunks of a body put together.
pub open spec fn joined(chunks: Seq<Seq<u8>>) -> Seq<u8>
    decreases chunks.len(),
{
    if chunks.len() == 0 {
        Seq::empty()
    } else {
        joined(chunks.drop_last()) + chunks.last()
    }
}

/// The size limit is exact, however the body is cut into chunks: a body of
/// no more bytes than the ceiling is received whole, one of exactly as many
/// too, and a body of one byte more, or of any number more, is refused.
pub proof fn lemma_limit_is_exact(limit: Option<usize>, chunks: Seq<Seq<u8>>)
    ensures
        joined(chunks).len() <= ceiling(limit) ==> received_after(limit, chunks) == Some(
            joined(chunks),
        ),
        joined(chunks).len() > ceiling(limit) ==> received_after(limit, chunks) is None,
    decreases chunks.len(),
{
    if chunks.len() > 0 {
        lemma_limit_is_exact(limit, chunks.drop_last());
    }
}

/// Once the ceiling is crossed nothing that arrives later brings the
/// download back: the request has failed for good.
pub proof fn lemma_limit_is_final(limit: Option<usize>, chunks: Seq<Seq<u8>>, more: Seq<Seq<u8>>)
    requires
        received_after(limit, chunks) is None,
    ensures
        received_after(limit, chunks + more) is None,
    decreases more.len(),
{
    if more.len() == 0 {
        assert(chunks + more == chunks);
    } else {
        assert((chunks + more).drop_last() == chunks + more.drop_last());
        lemma_limit_is_final(limit, chunks, more.drop_last());
    }
}

/// The body of a response while it arrives: the format that the response
/// declared, and the bytes received so far, never more than the ceiling.
pub struct Download {
    hint: X509Type,
    limit: Option<usize>,
    buffer: BytesMut,
}

impl Download {
    #[verifier::type_invariant]
    spec fn within_ceiling(self) -> bool {
        buffer_content(self.buffer).len() <= ceiling(self.limit)
    }

    /// The format that the response declared.
    pub closed spec fn hint(self) -> X509Type {
        self.hint
    }

    /// The limit that the download is held to.
    pub closed spec fn limit(self) -> Option<usize> {
        self.limit
    }

    /// The bytes received so far.
    pub closed spec fn received(self) -> Seq<u8> {
        buffer_content(self.buffer)
    }

    /// Takes the next chunk of the body. Where the bytes received would
    /// exceed the ceiling the download ends here: the error is returned and
    /// what was received is dropped with the download.
    pub fn receive(self, chunk: &[u8]) -> (r: Result<Download, X509ClientError>)
        ensures
            match extended(self.limit(), self.received(), chunk@) {
                Some(body) => r matches Ok(next) && next.received() == body && next.hint()
                    == self.hint() && next.limit() == self.limit(),
                None => r == Err::<Download, _>(
                    X509ClientError::SizeLimitExceeded { limit: ceiling(self.limit()) },
                ),
            },
    {
        proof {
            use_type_invariant(&self);
        }
        let max: usize = match self.limit {
            Some(max) => max,
            None => usize::MAX,
        };
        let held: usize = buffer_len(&self.buffer);
        if chunk.len() > max - held {
            return Err(X509ClientError::SizeLimitExceeded { limit: max });
        }
        let mut buffer = self.buffer;
        extend_from_slice(&mut buffer, chunk);
        Ok(Download { hint: self.hint, limit: self.limit, buffer })
    }

    /// Ends the download: the declared format and the whole body.
    pub fn finish(self) -> (payload: (X509Type, Bytes))
        ensures
            payload.0 == self.hint(),
            bytes_content(payload.1) == self.received(),
            self.received().len() <= ceiling(self.limit()),
    {
        proof {
            use_type_invariant(&self);
        }
        (self.hint, freeze(self.buffer))
    }
}

/// Whether a status is in the 2xx range.
pub open spec fn is_success(status: u16) -> bool {
    200 <= status < 300
}

/// A client bound to one backend and set up once.
pub struct X509Client<X: X509Iterator> {
    parser: X509Parse<X>,
    files: bool,
    limit: Option<usize>,
}

impl<X: X509Iterator> Clone for X509Client<X> {
    fn clone(&self) -> (copy: Self)
        ensures
            copy.strict() == self.strict(),
            copy.files() == self.files(),
            copy.limit() == self.limit(),
    {
        X509Client { parser: self.parser.clone(), files: self.files, limit: self.limit }
    }
}

impl<X: X509Iterator> Default for X509Client<X> {
    /// A client with the default configuration: relaxed parsing, no `file`
    /// origins, no limit.
    fn default() -> (client: Self)
        ensures
            !client.strict(),
            !client.files(),
            client.limit() is None,
    {
        X509Client::new(X509ClientConfiguration::default())
    }
}

impl<X: X509Iterator> X509Client<X> {
    /// Whether this client parses strictly.
    pub closed spec fn strict(&self) -> bool {
        self.parser.is_strict()
    }

    /// Whether this client reads `file` origins.
    pub closed spec fn files(&self) -> bool {
        self.files
    }

    /// The limit that this client holds downloads to.
    pub closed spec fn limit(&self) -> Option<usize> {
        self.limit
    }

    /// A client set up as `config` says.
    pub fn new(config: X509ClientConfiguration) -> (client: Self)
        ensures
            client.strict() == config.strict,
            client.files() == config.files,
            client.limit() == config.limit,
    {
        X509Client { parser: X509Parse::new(config.strict), files: config.files, limit: config.limit }
    }

    /// Begins a request for the certificates of `url`: decides where the
    /// bytes are to be read from. A `file` origin is refused while file
    /// transport is switched off, before its path is looked at; every other
    /// scheme is read from the network.
    pub fn get_all(&self, url: &Url) -> (r: Result<Transport, X509ClientError>)
        ensures
            url_scheme(*url) == "file"@ && !self.files() ==> r == Err::<Transport, _>(
                X509ClientError::SchemeNotPermitted,
            ),
            url_scheme(*url) == "file"@ && self.files() ==> match r {
                Ok(transport) => transport is File,
                Err(e) => e matches X509ClientError::PathResolutionFailed(text) && text@
                    == url_text(*url),
            },
            url_scheme(*url) != "file"@ ==> (r matches Ok(transport) && transport is Network),
    {
        if same_text(scheme(url), "file") {
            if !self.files {
                return Err(X509ClientError::SchemeNotPermitted);
            }
            match to_file_path(url) {
                Some(path) => Ok(Transport::File(path)),
                None => Err(X509ClientError::PathResolutionFailed(String::from_str(as_str(url)))),
            }
        } else {
            Ok(Transport::Network)
        }
    }

    /// Decodes the bytes of the file at `path`, with the extension as hint.
    /// Whatever the size of the file, it is not held against the limit.
    pub fn file_read_certificates(&self, path: &PathBuf, data: &[u8]) -> (r: X509ClientResult<X>)
        ensures
            parse_returns::<X>(self.strict(), extension_hint(path_extension(path)), data@, r),
    {
        let hint = X509Type::from(path);
        self.parser.parse(&hint, data)
    }

    /// Opens the download of a response's body. A status outside the 2xx
    /// range ends the request; otherwise the hint is taken from the headers,
    /// before any byte of the body is looked at.
    pub fn download(&self, status: u16, headers: &HeaderMap) -> (r: Result<
        Download,
        X509ClientError,
    >)
        ensures
            is_success(status) ==> (r matches Ok(download) && download.hint() == headers_hint(
                header_values(*headers),
            ) && download.limit() == self.limit() && download.received() == Seq::<u8>::empty()),
            !is_success(status) ==> r == Err::<Download, _>(
                X509ClientError::HttpStatusError(status),
            ),
    {
        if status < 200 || status >= 300 {
            return Err(X509ClientError::HttpStatusError(status));
        }
        let hint = X509Type::from(headers);
        Ok(Download { hint, limit: self.limit, buffer: empty_buffer() })
    }

    /// Decodes the body of a finished download, with the declared format as
    /// hint.
    pub fn http_get_certificates(&self, download: Download) -> (r: X509ClientResult<X>)
        ensures
            parse_returns::<X>(self.strict(), download.hint(), download.received(), r),
    {
        let (hint, body) = download.finish();
        self.parser.parse(&hint, as_slice(&body))
    }

    /// The first certificate of a decoded collection, or `EmptyResult`
    /// where the collection holds none.
    pub fn get<T>(certificates: Vec<T>) -> (r: X509ClientResult<T>)
        ensures
            certificates@.len() == 0 ==> r == Err::<T, _>(X509ClientError::EmptyResult),
            certificates@.len() > 0 ==> r == Ok::<_, X509ClientError>(certificates@[0]),
    {
        let mut certificates = certificates;
        if certificates.len() == 0 {
            Err(X509ClientError::EmptyResult)
        } else {
            Ok(certificates.swap_remove(0))
        }
    }
}

/// Whether two texts are the same, character for character.
fn same_text(a: &str, b: &str) -> (same: bool)
    ensures
        same == (a@ == b@),
{
    let n: usize = a.unicode_len();
    if n != b.unicode_len() {
        return false;
    }
    let mut i: usize = 0;
    while i < n
        invariant
            i <= n,
            n == a@.len(),
            n == b@.len(),
            forall|j: int| 0 <= j < i ==> a@[j] == b@[j],
        decreases n - i,
    {
        if a.get_char(i) != b.get_char(i) {
            return false;
        }
        i += 1;
    }
    assert(a@ =~= b@);
    true
}

} // verus!
