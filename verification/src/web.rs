//! URLs as the engine reads them: parsed by the `url` crate into plain
//! parts, then checked before any request is made.

use vstd::prelude::*;
use crate::mpris::{is_http_url, spec_is_http_url};

verus! {

broadcast use vstd::string::group_string_axioms;

/// The parts of a parsed absolute URL that the engine reads.
pub struct UrlParts {
    /// The scheme, lower-cased, without the `:`.
    pub scheme: String,
    /// The host, when the URL has one (IPv6 hosts in brackets).
    pub host: Option<String>,
    /// The explicit port, or the scheme's well-known default.
    pub port: Option<u16>,
    /// The URL re-serialised in normal form.
    pub serialized: String,
}

/// [`UrlParts`] as text: (scheme, host, port, serialisation).
pub type UrlPartsView = (Seq<char>, Option<Seq<char>>, Option<u16>, Seq<char>);

/// The view of an optional string.
pub open spec fn opt_text(s: Option<String>) -> Option<Seq<char>> {
    match s {
        Some(t) => Some(t@),
        None => None,
    }
}

impl View for UrlParts {
    type V = UrlPartsView;

    open spec fn view(&self) -> UrlPartsView {
        (self.scheme@, opt_text(self.host), self.port, self.serialized@)
    }
}

/// What `url::Url::parse` makes of a text, read back through `scheme()`,
/// `host_str()`, `port_or_known_default()` and `as_str()`; `None` when it
/// is not an absolute URL.
pub uninterp spec fn url_parts(text: Seq<char>) -> Option<UrlPartsView>;

/// Parses `text` with `url::Url::parse` and reads its scheme, host, port
/// (explicit, or the scheme's known default) and normal form. The contract
/// claims that the result is a function of the text alone, and (from the
/// crate's `port_or_known_default`, which falls back to 80 for `http` and
/// 443 for `https`) that those two schemes always come with a port.
#[verifier::external_body]
fn parse_url_parts(text: &str) -> (r: Option<UrlParts>)
    ensures
        match r {
            Some(p) => url_parts(text@) == Some(p@),
            None => url_parts(text@).is_none(),
        },
        r matches Some(p) ==> ((p.scheme@ == "http"@ || p.scheme@ == "https"@) ==> p.port.is_some()),
{
    let u = url::Url::parse(text).ok()?;
    Some(UrlParts {
        scheme: u.scheme().to_string(),
        host: u.host_str().map(|h| h.to_string()),
        port: u.port_or_known_default(),
        serialized: u.as_str().to_string(),
    })
}

/// Where a request goes: host and port.
pub struct HostPort {
    pub host: String,
    pub port: u16,
}

/// The host and port a URL's request goes to, when it parses and has a
/// host; a missing port (no known default) counts as `default_port`.
pub open spec fn spec_request_target(text: Seq<char>, default_port: u16) -> Option<(Seq<char>, u16)> {
    match url_parts(text) {
        Some(p) => match p.1 {
            Some(h) => Some((h, match p.2 {
                Some(port) => port,
                None => default_port,
            })),
            None => None,
        },
        None => None,
    }
}

/// The host and port to resolve (and vet) before fetching `text`.
pub fn request_target(text: &str, default_port: u16) -> (r: Option<HostPort>)
    ensures
        match r {
            Some(t) => spec_request_target(text@, default_port) == Some((t.host@, t.port)),
            None => spec_request_target(text@, default_port).is_none(),
        },
{
    match parse_url_parts(text) {
        Some(p) => match p.host {
            Some(h) => {
                let port = match p.port {
                    Some(x) => x,
                    None => default_port,
                };
                Some(HostPort { host: h, port })
            },
            None => None,
        },
        None => None,
    }
}

/// Where canvas lookups go: the configured proxy's host and port (80 when
/// the scheme has no known default). Without a configured proxy there is
/// nothing to look up, and no request of any kind is made.
pub fn canvas_proxy_target(proxy_url: Option<&str>) -> (r: Option<HostPort>)
    ensures
        match proxy_url {
            None => r.is_none(),
            Some(u) => match r {
                Some(t) => spec_request_target(u@, HTTP_PORT) == Some((t.host@, t.port)),
                None => spec_request_target(u@, HTTP_PORT).is_none(),
            },
        },
{
    match proxy_url {
        None => None,
        Some(u) => request_target(u, HTTP_PORT),
    }
}

/// Why a video stream URL was refused.
#[derive(Clone, Copy, Debug, PartialEq, Eq, Structural)]
pub enum StreamUrlError {
    /// Not an absolute URL.
    Invalid,
    /// A scheme other than `http` or `https`; anything else could make the
    /// decoder read local files or other protocols.
    UnsupportedScheme,
    /// No host to vet.
    NoHost,
}

/// A vetted-by-shape stream URL: the host and port still to be resolved
/// and checked, and the normal form handed to the decoder.
pub struct StreamTarget {
    pub host: String,
    pub port: u16,
    pub url: String,
}

/// Which checks a stream URL passes, in the order they are made.
pub open spec fn spec_check_stream_url(text: Seq<char>) -> Result<(Seq<char>, u16, Seq<char>), StreamUrlError> {
    match url_parts(text) {
        None => Err(StreamUrlError::Invalid),
        Some(p) => if p.0 != "http"@ && p.0 != "https"@ {
            Err(StreamUrlError::UnsupportedScheme)
        } else {
            match p.1 {
                None => Err(StreamUrlError::NoHost),
                Some(h) => Ok((h, match p.2 {
                    Some(port) => port,
                    None => 443u16,
                }, p.3)),
            }
        },
    }
}

/// Checks a canvas video URL before it is handed to FFmpeg: it must parse,
/// use `http` or `https`, and name a host.
pub fn check_stream_url(text: &str) -> (r: Result<StreamTarget, StreamUrlError>)
    ensures
        match r {
            Ok(t) => spec_check_stream_url(text@) == Ok::<(Seq<char>, u16, Seq<char>), StreamUrlError>(
                (t.host@, t.port, t.url@),
            ),
            Err(e) => spec_check_stream_url(text@) == Err::<(Seq<char>, u16, Seq<char>), StreamUrlError>(e),
        },
{
    let p = match parse_url_parts(text) {
        Some(p) => p,
        None => return Err(StreamUrlError::Invalid),
    };
    let http = "http".to_owned();
    let https = "https".to_owned();
    if !p.scheme.eq(&http) && !p.scheme.eq(&https) {
        return Err(StreamUrlError::UnsupportedScheme);
    }
    let host = match p.host {
        Some(h) => h,
        None => return Err(StreamUrlError::NoHost),
    };
    let port = match p.port {
        Some(x) => x,
        None => 443,
    };
    Ok(StreamTarget { host, port, url: p.serialized })
}

/// The port a web URL without a known default is fetched on.
pub const HTTP_PORT: u16 = 80;

/// Where album art named by a player's URL is read from.
pub enum ArtSource {
    /// A web URL: its host (resolved and vetted before any request) and port.
    Remote(HostPort),
    /// The local path of a `file://` URL, as the bytes of an OS path.
    LocalFile(Vec<u8>),
    /// Anything else, taken as a local path as it stands.
    RawPath(String),
}

/// [`ArtSource`] as text.
pub enum ArtSourceView {
    Remote(Seq<char>, u16),
    LocalFile(Seq<u8>),
    RawPath(Seq<char>),
}

impl View for ArtSource {
    type V = ArtSourceView;

    open spec fn view(&self) -> ArtSourceView {
        match self {
            ArtSource::Remote(t) => ArtSourceView::Remote(t.host@, t.port),
            ArtSource::LocalFile(p) => ArtSourceView::LocalFile(p@),
            ArtSource::RawPath(p) => ArtSourceView::RawPath(p@),
        }
    }
}

/// Why a web art URL was refused before any request.
#[derive(Clone, Copy, Debug, PartialEq, Eq, Structural)]
pub enum ArtSourceError {
    /// It starts like a web URL but does not parse.
    InvalidUrl,
    /// It parses but names no host.
    NoHost,
}

/// What `url::Url::to_file_path` makes of a parsed URL's text, as the bytes
/// of the OS path; `None` when the text does not parse or the URL has no
/// local path.
pub uninterp spec fn url_file_path(text: Seq<char>) -> Option<Seq<u8>>;

/// Parses `text` with `url::Url::parse`, converts it with
/// `Url::to_file_path`, and hands the path on as its bytes
/// (`OsString::into_encoded_bytes`, the raw bytes on Unix). The contract
/// claims only that the result is a function of the text alone (for one
/// target platform).
#[verifier::external_body]
fn file_url_to_path(text: &str) -> (r: Option<Vec<u8>>)
    ensures
        match r {
            Some(p) => url_file_path(text@) == Some(p@),
            None => url_file_path(text@).is_none(),
        },
{
    let path = url::Url::parse(text).ok()?.to_file_path().ok()?;
    Some(path.into_os_string().into_encoded_bytes())
}

/// Web URLs (by their first four characters) are fetched from their host,
/// on the URL's port or 80; `file://` URLs are read from their local path;
/// everything else is taken as a path as it stands.
pub open spec fn spec_art_source(text: Seq<char>) -> Result<ArtSourceView, ArtSourceError> {
    if spec_is_http_url(text) {
        match url_parts(text) {
            None => Err(ArtSourceError::InvalidUrl),
            Some(p) => match p.1 {
                None => Err(ArtSourceError::NoHost),
                Some(h) => Ok(ArtSourceView::Remote(h, match p.2 {
                    Some(port) => port,
                    None => HTTP_PORT,
                })),
            },
        }
    } else {
        match url_parts(text) {
            Some(p) => if p.0 == "file"@ && url_file_path(text) is Some {
                Ok(ArtSourceView::LocalFile(url_file_path(text)->0))
            } else {
                Ok(ArtSourceView::RawPath(text))
            },
            None => Ok(ArtSourceView::RawPath(text)),
        }
    }
}

/// Decides where the album art named by `url` comes from.
pub fn art_source(url: &str) -> (r: Result<ArtSource, ArtSourceError>)
    ensures
        match r {
            Ok(s) => spec_art_source(url@) == Ok::<ArtSourceView, ArtSourceError>(s@),
            Err(e) => spec_art_source(url@) == Err::<ArtSourceView, ArtSourceError>(e),
        },
{
    let parts = parse_url_parts(url);
    if is_http_url(url) {
        match parts {
            None => Err(ArtSourceError::InvalidUrl),
            Some(p) => match p.host {
                None => Err(ArtSourceError::NoHost),
                Some(h) => {
                    let port = match p.port {
                        Some(x) => x,
                        None => HTTP_PORT,
                    };
                    Ok(ArtSource::Remote(HostPort { host: h, port }))
                },
            },
        }
    } else {
        match parts {
            Some(p) => {
                let file = "file".to_owned();
                if p.scheme.eq(&file) {
                    match file_url_to_path(url) {
                        Some(path) => Ok(ArtSource::LocalFile(path)),
                        None => Ok(ArtSource::RawPath(url.to_owned())),
                    }
                } else {
                    Ok(ArtSource::RawPath(url.to_owned()))
                }
            },
            None => Ok(ArtSource::RawPath(url.to_owned())),
        }
    }
}

/// Most bytes of a response body (JSON or an image) the engine accepts.
pub const MAX_BODY_BYTES: usize = 10 * 1024 * 1024;

/// Adds one received chunk of a response body, unless the body would then
/// exceed `max` bytes, in which case the body is left as it was and the
/// download is to be refused. Returns whether the chunk was added.
pub fn append_capped(body: &mut Vec<u8>, chunk: &[u8], max: usize) -> (ok: bool)
    ensures
        ok == (old(body)@.len() + chunk@.len() <= max),
        ok ==> final(body)@ == old(body)@ + chunk@,
        !ok ==> final(body)@ == old(body)@,
{
    if chunk.len() > max || body.len() > max - chunk.len() {
        return false;
    }
    let ghost before = body@;
    body.extend_from_slice(chunk);
    proof {
        assert forall|i: int| 0 <= i < body@.len() implies body@[i] == (before + chunk@)[i] by {
            if i >= before.len() {
                assert(vstd::pervasive::cloned::<u8>(chunk@[i - before.len()], body@[i]));
            }
        }
        assert(body@ =~= before + chunk@);
    }
    true
}

/// A body built with `append_capped` from an acceptable start never grows
/// past the limit, whatever the chunks.
pub proof fn capped_body_stays_within_limit(before: Seq<u8>, after: Seq<u8>, chunk: Seq<u8>, max: usize, ok: bool)
    requires
        before.len() <= max,
        ok == (before.len() + chunk.len() <= max),
        ok ==> after == before + chunk,
        !ok ==> after == before,
    ensures
        after.len() <= max,
{
}

} // verus!
