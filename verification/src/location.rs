//! URLs, parsed by the `url` crate and held as the parts the library reads.

use vstd::prelude::*;

verus! {

/// `url::ParseError`, the reason why a text is not a URL. Values of it are
/// carried through untouched; nothing is known of what they hold.
#[verifier::external_type_specification]
#[verifier::external_body]
pub struct ExParseError(url::ParseError);

/// The parts of a parsed URL that the library reads.
#[derive(Debug)]
pub struct UrlParts {
    /// The whole URL, as the parser writes it back.
    pub href: String,
    /// The host, where the URL has one.
    pub host: Option<String>,
    /// The port, where the URL names one that is not its scheme's default.
    pub port: Option<u16>,
}

/// The mathematical content of a [`UrlParts`].
pub struct UrlPartsView {
    pub href: Seq<char>,
    pub host: Option<Seq<char>>,
    pub port: Option<u16>,
}

impl View for UrlParts {
    type V = UrlPartsView;

    open spec fn view(&self) -> UrlPartsView {
        UrlPartsView {
            href: self.href@,
            host: match self.host {
                Some(h) => Some(h@),
                None => None,
            },
            port: self.port,
        }
    }
}

/// What parsing `text` as an absolute URL gives: nothing where it is not one,
/// else the serialised URL, its host and its port.
pub uninterp spec fn url_parts_of(text: Seq<char>) -> Option<UrlPartsView>;

/// The content of a parsing outcome, with the reason for a failure dropped.
pub open spec fn parsed_view(r: Result<UrlParts, url::ParseError>) -> Option<UrlPartsView> {
    match r {
        Ok(parts) => Some(parts@),
        Err(_) => None,
    }
}

/// Parses with `url::Url::parse` and reads the result with `Url::as_str`,
/// `Url::host_str` and `Url::port`. The contract names the outcome and claims
/// only that the text determines it.
#[verifier::external_body]
pub(crate) fn parse_url(text: &str) -> (r: Result<UrlParts, url::ParseError>)
    ensures
        parsed_view(r) == url_parts_of(text@),
{
    let parsed = url::Url::parse(text)?;
    Ok(
        UrlParts {
            href: parsed.as_str().to_string(),
            host: parsed.host_str().map(|h| h.to_string()),
            port: parsed.port(),
        },
    )
}

} // verus!
