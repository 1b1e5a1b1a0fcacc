use ccurlshortener::host::host_text;
use ccurlshortener::mapping::UrlMapping;
use ccurlshortener::store::Db;
use ccurlshortener::web::decimal_text;
use ccurlshortener::web::short_url;
use ccurlshortener::web::AppState;
use ccurlshortener::web::Config;

fn state_on(config: &Config) -> AppState<'_> {
    AppState { db: Db::new("unused.db"), config }
}

#[test]
fn host_string_names_host_and_port() {
    let config = Config { hostname: "localhost", proto: "http", port: 8080 };
    assert_eq!(state_on(&config).hostString(), "localhost:8080");
    let config = Config { hostname: "example.org", proto: "https", port: 80 };
    assert_eq!(state_on(&config).hostString(), "example.org:80");
    let config = Config { hostname: "h", proto: "http", port: 0 };
    assert_eq!(state_on(&config).hostString(), "h:0");
    let config = Config { hostname: "h", proto: "http", port: 65535 };
    assert_eq!(state_on(&config).hostString(), "h:65535");
}

#[test]
fn host_string_is_empty_on_port_443() {
    let config = Config { hostname: "example.org", proto: "https", port: 443 };
    assert_eq!(state_on(&config).hostString(), "");
}

#[test]
fn decimal_text_of_every_port() {
    let mut n: u16 = 0;
    loop {
        assert_eq!(decimal_text(n), n.to_string());
        if n == u16::MAX {
            break;
        }
        n += 1;
    }
}

#[test]
fn short_url_joins_its_parts() {
    assert_eq!(
        short_url("http", &"localhost:8080".to_string(), &"AQAAAAAAAAA=".to_string()),
        "http://localhost:8080/e/AQAAAAAAAAA="
    );
    assert_eq!(short_url("https", &"".to_string(), &"x".to_string()), "https:///e/x");
    assert_eq!(short_url("", &"".to_string(), &"".to_string()), ":///e/");
}

#[test]
fn host_of_a_stored_url() {
    let mapping = UrlMapping::new(1, "https://example.com/a".to_string(), 7);
    assert_eq!(mapping.get_host(), "example.com");
    assert_eq!(mapping.try_get_host(), Some("example.com".to_string()));
    let mapping = UrlMapping::new(2, "http://User@Sub.Example.ORG:8080/x?y#z".to_string(), 7);
    assert_eq!(mapping.get_host(), "sub.example.org");
    let mapping = UrlMapping::new(3, "https://127.0.0.1/index.html".to_string(), 7);
    assert_eq!(mapping.get_host(), "127.0.0.1");
}

#[test]
fn host_of_text_that_is_no_url() {
    for text in ["", "example.com/a", "not a url", "//example.com"] {
        let mapping = UrlMapping::new(1, text.to_string(), 7);
        assert_eq!(mapping.get_host(), "-err-", "{}", text);
        assert_eq!(mapping.try_get_host(), Some("-err-".to_string()), "{}", text);
    }
}

#[test]
fn host_of_a_url_without_host() {
    for text in ["mailto:someone@example.com", "data:text/plain,Stuff", "unix:/run/foo.socket"] {
        let mapping = UrlMapping::new(1, text.to_string(), 7);
        assert_eq!(mapping.try_get_host(), None, "{}", text);
    }
}

#[test]
fn host_text_of_a_parsed_host() {
    assert_eq!(host_text(None), "-err-");
    assert_eq!(host_text(Some(Some("example.com".to_string()))), "example.com");
    assert_eq!(host_text(Some(Some(String::new()))), "");
}
