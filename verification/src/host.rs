//! The host of a stored URL, as the listing shows it.

use crate::mapping::UrlMapping;
use url::Url;
use vstd::prelude::*;
use vstd::string::StringExecFns;

verus! {

/// What `url`'s parser makes of `text`: `None` where `text` is no absolute
/// URL, `Some(None)` where it is one without a host, else the host as the
/// parser writes it.
pub uninterp spec fn url_host(text: Seq<char>) -> Option<Option<Seq<char>>>;

/// The characters of a parsed host.
pub open spec fn host_chars(parsed: Option<Option<String>>) -> Option<Option<Seq<char>>> {
    match parsed {
        None => None,
        Some(None) => Some(None),
        Some(Some(host)) => Some(Some(host@)),
    }
}

/// What the listing shows for a parsed host: the host, or `-err-` where
/// the text was no URL.
pub open spec fn spec_host_text(parsed: Option<Option<Seq<char>>>) -> Seq<char> {
    match parsed {
        Some(Some(host)) => host,
        _ => seq!['-', 'e', 'r', 'r', '-'],
    }
}

/// `Url::parse` of `url`, followed by `Url::host_str` on the URL that was
/// parsed. Trusted: the result is the parser's, and depends on `text` alone.
#[verifier::external_body]
fn parse_host(text: &str) -> (parsed: Option<Option<String>>)
    ensures
        url_host(text@) == host_chars(parsed),
{
    match Url::parse(text) {
        Ok(url) => Some(url.host_str().map(|host| host.to_string())),
        Err(_) => None,
    }
}

/// What the listing shows for `parsed`.
pub fn host_text(parsed: Option<Option<String>>) -> (host: String)
    requires
        !(parsed matches Some(None)),
    ensures
        host@ == spec_host_text(host_chars(parsed)),
{
    match parsed {
        Some(Some(host)) => host,
        _ => {
            proof {
                reveal_strlit("-err-");
            }
            let host = String::from_str("-err-");
            assert(host@ =~= seq!['-', 'e', 'r', 'r', '-']);
            host
        },
    }
}

impl UrlMapping {
    /// The host of the long URL, `-err-` where the long URL is no URL.
    pub fn get_host(&self) -> (host: String)
        requires
            url_host(self.long_url@) != Some(None::<Seq<char>>),
        ensures
            host@ == spec_host_text(url_host(self.long_url@)),
    {
        host_text(parse_host(self.long_url.as_str()))
    }

    /// As `get_host`, and `None` where the long URL is a URL without a host.
    pub fn try_get_host(&self) -> (host: Option<String>)
        ensures
            host is None <==> url_host(self.long_url@) == Some(None::<Seq<char>>),
            host matches Some(text) ==> text@ == spec_host_text(url_host(self.long_url@)),
    {
        match parse_host(self.long_url.as_str()) {
            Some(None) => None,
            _ => Some(self.get_host()),
        }
    }
}

} // verus!
