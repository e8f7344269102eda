//! Webhook URLs, as the `url` crate reads them.

use vstd::prelude::*;

verus! {

/// What validation reads of a parsed URL.
#[derive(Debug)]
pub struct UrlParts {
    /// The scheme, lower-cased, without its colon.
    pub scheme: String,
    /// Whether the URL has a host.
    pub has_host: bool,
}

/// A parse, with its strings as character sequences: scheme and presence of a
/// host, or the reason why there is no URL.
pub type ParseView = Result<(Seq<char>, bool), Seq<char>>;

/// The view of a parse.
pub open spec fn parse_view(parsed: Result<UrlParts, String>) -> ParseView {
    match parsed {
        Ok(parts) => Ok((parts.scheme@, parts.has_host)),
        Err(reason) => Err(reason@),
    }
}

/// What `url::Url::parse` makes of a string: the scheme of the URL and whether
/// it has a host, or the text of the parse error.
pub uninterp spec fn url_parse(input: Seq<char>) -> Result<(Seq<char>, bool), Seq<char>>;

/// Calls `url::Url::parse`, and reads the outcome: `Url::scheme` and whether
/// `Url::host` is there, or the text that the `ParseError` displays. Not proved,
/// but taken from the crate: that the parse ends without a panic, and that what is
/// read of it depends on the characters of `input` alone. Which strings parse, and
/// as what, is left to the crate.
#[verifier::external_body]
pub(crate) fn parse_url(input: &str) -> (parsed: Result<UrlParts, String>)
    ensures
        parse_view(parsed) == url_parse(input@),
{
    match url::Url::parse(input) {
        Ok(url) => Ok(
            UrlParts { scheme: url.scheme().to_owned(), has_host: url.host().is_some() },
        ),
        Err(error) => Err(error.to_string()),
    }
}

} // verus!
