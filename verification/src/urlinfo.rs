//! What the library reads of a target URL: its scheme and its host, taken
//! from the `url` crate's WHATWG parser.
use vstd::prelude::*;

verus! {

/// The two parts of a target URL that resolution looks at.
pub struct UrlParts {
    pub scheme: String,
    pub host: String,
}

/// Whether the WHATWG parser accepts `s` as an absolute URL that has a
/// host.
pub uninterp spec fn url_splits(s: Seq<char>) -> bool;

/// The scheme the WHATWG parser reads from `s`; the parser normalizes it
/// to lower case.
pub uninterp spec fn url_scheme_of(s: Seq<char>) -> Seq<char>;

/// The host the WHATWG parser reads from `s`, in its normalized form.
pub uninterp spec fn url_host_of(s: Seq<char>) -> Seq<char>;

/// Relies on `url::Url::parse`, `Url::scheme` and `Url::host_str`: parsing
/// either fails, or yields a URL whose scheme and host those accessors hand
/// back, `host_str` answering `None` exactly when the URL has no host.
/// What they answer is a function of the input text alone, so the three
/// names above stand for it.
#[verifier::external_body]
pub fn split_target_url(s: &str) -> (r: Option<UrlParts>)
    ensures
        r is Some <==> url_splits(s@),
        r matches Some(p) ==> p.scheme@ == url_scheme_of(s@) && p.host@ == url_host_of(s@),
{
    match url::Url::parse(s) {
        Ok(u) => match u.host_str() {
            Some(h) => Some(UrlParts { scheme: u.scheme().to_string(), host: h.to_string() }),
            None => None,
        },
        Err(_) => None,
    }
}

} // verus!
