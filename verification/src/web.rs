//! The service's own address, and the short links built from it.

use crate::store::Db;
use vstd::prelude::*;
use vstd::string::StringExecFns;

verus! {

/// Where the service is reached.
#[derive(Clone, Debug)]
pub struct Config {
    pub hostname: &'static str,
    pub proto: &'static str,
    pub port: u16,
}

/// What every request handler is given.
pub struct AppState<'a> {
    pub db: Db,
    pub config: &'a Config,
}

/// The character of a decimal digit.
pub open spec fn digit(d: nat) -> char
    recommends
        d < 10,
{
    seq!['0', '1', '2', '3', '4', '5', '6', '7', '8', '9'][d as int]
}

/// The decimal numeral of `n`, without leading zeros.
pub open spec fn decimal(n: nat) -> Seq<char>
    decreases n,
{
    if n < 10 {
        seq![digit(n)]
    } else {
        decimal(n / 10).push(digit(n % 10))
    }
}

/// The host part of the service's links: empty on port 443, else the host
/// name, a colon and the port.
pub open spec fn spec_host_string(hostname: Seq<char>, port: u16) -> Seq<char> {
    if port == 443 {
        Seq::<char>::empty()
    } else {
        hostname + seq![':'] + decimal(port as nat)
    }
}

/// The short link of `slug` on `host`.
pub open spec fn spec_short_url(proto: Seq<char>, host: Seq<char>, slug: Seq<char>) -> Seq<char> {
    proto + seq![':', '/', '/'] + host + seq!['/', 'e', '/'] + slug
}

fn digit_text(d: u16) -> (text: &'static str)
    requires
        d < 10,
    ensures
        text@ == seq![digit(d as nat)],
{
    proof {
        reveal_strlit("0");
        reveal_strlit("1");
        reveal_strlit("2");
        reveal_strlit("3");
        reveal_strlit("4");
        reveal_strlit("5");
        reveal_strlit("6");
        reveal_strlit("7");
        reveal_strlit("8");
        reveal_strlit("9");
    }
    let text = if d == 0 {
        "0"
    } else if d == 1 {
        "1"
    } else if d == 2 {
        "2"
    } else if d == 3 {
        "3"
    } else if d == 4 {
        "4"
    } else if d == 5 {
        "5"
    } else if d == 6 {
        "6"
    } else if d == 7 {
        "7"
    } else if d == 8 {
        "8"
    } else {
        "9"
    };
    assert(text@ =~= seq![digit(d as nat)]);
    text
}

/// The decimal numeral of `n`.
pub fn decimal_text(n: u16) -> (text: String)
    ensures
        text@ == decimal(n as nat),
    decreases n,
{
    if n < 10 {
        String::from_str(digit_text(n))
    } else {
        let mut text = decimal_text(n / 10);
        text.append(digit_text(n % 10));
        assert(text@ =~= decimal((n / 10) as nat).push(digit((n % 10) as nat)));
        text
    }
}

impl AppState<'_> {
    /// The host part of the service's links.
    #[allow(non_snake_case)]
    pub fn hostString(&self) -> (host: String)
        ensures
            host@ == spec_host_string(self.config.hostname@, self.config.port),
    {
        if self.config.port == 443 {
            String::new()
        } else {
            let mut host = String::from_str(self.config.hostname);
            proof {
                reveal_strlit(":");
            }
            host.append(":");
            host.append(decimal_text(self.config.port).as_str());
            assert(host@ =~= self.config.hostname@ + seq![':'] + decimal(self.config.port as nat));
            host
        }
    }
}

/// The short link of `slug` on `host`: the protocol, `://`, the host, `/e/`
/// and the slug.
pub fn short_url(proto: &str, host: &String, slug: &String) -> (url: String)
    ensures
        url@ == spec_short_url(proto@, host@, slug@),
{
    let mut url = String::from_str(proto);
    proof {
        reveal_strlit("://");
        reveal_strlit("/e/");
    }
    url.append("://");
    url.append(host.as_str());
    url.append("/e/");
    url.append(slug.as_str());
    assert(url@ =~= proto@ + seq![':', '/', '/'] + host@ + seq!['/', 'e', '/'] + slug@);
    url
}

} // verus!
