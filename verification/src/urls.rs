//! What the guard and the fetch read of a URL: its scheme, its host, and the
//! URL as the parser writes it back.

use vstd::prelude::*;

verus! {

/// The parts of a URL that parsed.
pub struct UrlParts {
    /// The scheme, without the colon.
    pub scheme: String,
    /// The host, where the URL has one.
    pub host: Option<String>,
    /// The whole URL in the parser's normal form.
    pub href: String,
}

/// The scheme, the host and the normal form that the URL parser finds in
/// `url`, with a host of `None` where the URL has none; or, where `url` is no
/// absolute URL, what the parser says is wrong with it.
pub uninterp spec fn url_parts(url: Seq<char>) -> Result<
    (Seq<char>, Option<Seq<char>>, Seq<char>),
    Seq<char>,
>;

/// What `parts` holds, as text.
pub open spec fn parts_text(parts: Result<UrlParts, String>) -> Result<
    (Seq<char>, Option<Seq<char>>, Seq<char>),
    Seq<char>,
> {
    match parts {
        Ok(p) => Ok(
            (
                p.scheme@,
                match p.host {
                    Some(h) => Some(h@),
                    None => None,
                },
                p.href@,
            ),
        ),
        Err(complaint) => Err(complaint@),
    }
}

/// The host of `url`: `None` where `url` does not parse or names no host.
pub open spec fn url_host(url: Seq<char>) -> Option<Seq<char>> {
    match url_parts(url) {
        Ok((_, host, _)) => host,
        Err(_) => None,
    }
}

/// `Url::parse` of the url crate, with `Url::scheme`, `Url::host_str` and
/// `Url::as_str` of what it returns, or the `Display` of its error. Trusted:
/// that the outcome depends on the text of `url` alone. Nothing is claimed of
/// which parts the parser finds, nor of what it says of a text that is no URL.
#[verifier::external_body]
pub(crate) fn parse_url(url: &str) -> (parts: Result<UrlParts, String>)
    ensures
        parts_text(parts) == url_parts(url@),
{
    match url::Url::parse(url) {
        Ok(parsed) => Ok(
            UrlParts {
                scheme: parsed.scheme().to_string(),
                host: parsed.host_str().map(|h| h.to_string()),
                href: parsed.as_str().to_string(),
            },
        ),
        Err(complaint) => Err(complaint.to_string()),
    }
}

} // verus!
