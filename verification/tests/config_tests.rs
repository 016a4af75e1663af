use reconcrab::config::{
    cookie_header, normalize_target, split_pair, upsert, Config,
};
use reconcrab::dispatch::prepare_request;
use reconcrab::error::ConfigError;
use reconcrab::headers::{check_headers, is_valid_header};
use reconcrab::identity::{identity_at, identity_for, pick_identity, IDENTITY_COUNT};
use reconcrab::mode::{FuzzMode, ProbeTarget};
use reconcrab::probe_url::UrlError;
use reconcrab::report::ProbeError;
use reconcrab::status::Outcome;
use reconcrab::text::{contains_char, find_char, starts_with, trim, trim_end_char};

fn strings(items: &[&str]) -> Vec<String> {
    items.iter().map(|s| s.to_string()).collect()
}

fn pair(k: &str, v: &str) -> (String, String) {
    (k.to_string(), v.to_string())
}

#[test]
fn pairs_split_at_the_first_colon() {
    assert_eq!(split_pair("Key: Value"), Some(pair("Key", "Value")));
    assert_eq!(split_pair("Referer: http://a:8/b"), Some(pair("Referer", "http://a:8/b")));
    assert_eq!(split_pair(":"), Some(pair("", "")));
    assert_eq!(split_pair(" a :"), Some(pair("a", "")));
    assert_eq!(split_pair("no colon"), None);
    assert_eq!(split_pair(""), None);
}

#[test]
fn later_value_replaces_earlier() {
    let parsed = Config::parse_key_value_pairs(strings(&["a: 1", "b:2", "a :3"]));
    assert_eq!(parsed, Ok(vec![pair("a", "3"), pair("b", "2")]));
    let mut map = vec![pair("x", "1")];
    upsert(&mut map, "y".to_string(), "2".to_string());
    upsert(&mut map, "x".to_string(), "9".to_string());
    assert_eq!(map, vec![pair("x", "9"), pair("y", "2")]);
}

#[test]
fn malformed_pair_is_named_by_index() {
    assert_eq!(
        Config::parse_key_value_pairs(strings(&["a:1", "bad", "worse"])),
        Err(ConfigError::MalformedKeyValue { index: 1 })
    );
    assert_eq!(Config::parse_key_value_pairs(Vec::new()), Ok(Vec::new()));
}

#[test]
fn target_gets_scheme_and_loses_trailing_slashes() {
    assert_eq!(normalize_target("example.com"), "http://example.com");
    assert_eq!(normalize_target("example.com//"), "http://example.com");
    assert_eq!(normalize_target("https://example.com/"), "https://example.com");
    assert_eq!(normalize_target("http://example.com/a/"), "http://example.com/a");
    assert_eq!(normalize_target("ftp://example.com"), "http://ftp://example.com");
    assert_eq!(normalize_target(""), "http:");
}

#[test]
fn config_defaults() {
    let c = Config::new("example.com/".to_string(), "words.txt".to_string(), None, None, None, None)
        .unwrap();
    assert_eq!(c.target_url, "http://example.com");
    assert_eq!(c.wordlist_file, "words.txt");
    assert_eq!(c.concurrent_requests, 500000);
    assert_eq!(c.timeout_secs, 15);
    assert_eq!(c.max_retries, 2);
    assert_eq!(c.max_cpu_milli, 50000);
    assert!(c.headers.is_empty());
    assert!(c.cookies.is_empty());
}

#[test]
fn config_checks_in_order() {
    let new = |headers: Option<Vec<String>>, cookies: Option<Vec<String>>, cpu: Option<u32>| {
        Config::new("https://h".to_string(), "w".to_string(), Some(10), headers, cookies, cpu)
    };
    assert_eq!(
        new(Some(strings(&["bad"])), Some(strings(&["x:1", "bad"])), Some(0)).err(),
        Some(ConfigError::MalformedKeyValue { index: 0 })
    );
    assert_eq!(
        new(Some(strings(&["a:b"])), Some(strings(&["x:1", "bad"])), Some(0)).err(),
        Some(ConfigError::MalformedKeyValue { index: 1 })
    );
    assert_eq!(new(None, None, Some(999)).err(), Some(ConfigError::CpuOutOfRange));
    assert_eq!(new(None, None, Some(100001)).err(), Some(ConfigError::CpuOutOfRange));
    let c = new(Some(strings(&["A: b"])), Some(strings(&["s: 1", "t:2"])), Some(1000)).unwrap();
    assert_eq!(c.max_cpu_milli, 1000);
    assert_eq!(c.concurrent_requests, 10);
    assert_eq!(c.headers, vec![pair("A", "b")]);
    assert_eq!(c.cookies, vec![pair("s", "1"), pair("t", "2")]);
    assert!(new(None, None, Some(100000)).is_ok());
}

#[test]
fn cookies_are_joined() {
    assert_eq!(cookie_header(&Vec::new()), None);
    assert_eq!(cookie_header(&vec![pair("k1", "v1")]), Some("k1=v1".to_string()));
    assert_eq!(
        cookie_header(&vec![pair("k1", "v1"), pair("k2", "v2"), pair("k3", "")]),
        Some("k1=v1; k2=v2; k3=".to_string())
    );
}

#[test]
fn text_helpers() {
    assert_eq!(trim("  a b \n"), "a b");
    assert_eq!(trim("\u{3000}x\u{3000}"), "x");
    assert_eq!(trim("   "), "");
    assert_eq!(trim_end_char("a//", '/'), "a");
    assert_eq!(trim_end_char("///", '/'), "");
    assert_eq!(trim_end_char("a/b", '/'), "a/b");
    assert!(starts_with("https://x", "https://"));
    assert!(!starts_with("http", "http://"));
    assert!(starts_with("x", ""));
    assert_eq!(find_char("a:b:c", ':'), Some(1));
    assert_eq!(find_char("\u{e9}\u{e9}:", ':'), Some(2));
    assert_eq!(find_char("abc", ':'), None);
    assert!(contains_char("a/b", '/'));
    assert!(!contains_char("ab", '/'));
}

#[test]
fn identities_come_from_the_pool() {
    let pool: Vec<&str> = (0..IDENTITY_COUNT).map(identity_at).collect();
    assert_eq!(pool.len(), 25);
    assert!(pool.iter().all(|s| s.starts_with("Mozilla/5.0 (")));
    assert_eq!(
        pool[24],
        "Mozilla/5.0 (X11; Ubuntu; Linux x86_64; rv:49.0) Gecko/20100101 Firefox/49.0"
    );
    assert_eq!(identity_for(3), pool[3]);
    assert_eq!(identity_for(25), pool[24]);
    for _ in 0..200 {
        assert!(pool.contains(&pick_identity()));
    }
}

#[test]
fn request_carries_identity_and_cookies() {
    let config = Config::new(
        "https://www.example.com/".to_string(),
        "w".to_string(),
        None,
        None,
        Some(strings(&["a:1", "b:2"])),
        None,
    )
    .unwrap();
    let target = ProbeTarget { word: "api".to_string(), mode: FuzzMode::Subdomain };
    let request = prepare_request(&config, &target, "agent").unwrap();
    assert_eq!(request.url, "https://api.example.com/");
    assert_eq!(request.identity, "agent");
    assert_eq!(request.cookie, Some("a=1; b=2".to_string()));
    assert_eq!(request.timeout_secs, 15);
    let target = ProbeTarget { word: "x".to_string(), mode: FuzzMode::Directory };
    let request = prepare_request(&config, &target, "agent").unwrap();
    assert_eq!(request.url, "https://www.example.com/x");
}

#[test]
fn construction_failure_fails_one_target() {
    let config =
        Config::new("http://".to_string(), "w".to_string(), None, None, None, None).unwrap();
    let target = ProbeTarget { word: "api".to_string(), mode: FuzzMode::Directory };
    let failure = prepare_request(&config, &target, "agent").unwrap_err();
    assert_eq!(failure.outcome, Outcome::Failed);
    assert_eq!(failure.error, Some(ProbeError::Construction(UrlError::MalformedBaseUrl)));
    assert_eq!(failure.url, "api");
    assert_eq!(failure.attempts, 0);
}

#[test]
fn refused_header_is_named_by_index() {
    assert_eq!(check_headers(&Vec::new()), Ok(()));
    assert_eq!(check_headers(&vec![pair("X-Api-Key", "abc"), pair("accept", "a\tb \u{e9}")]), Ok(()));
    assert_eq!(
        check_headers(&vec![pair("X-A", "b"), pair("bad name", "x"), pair("", "y")]),
        Err(ConfigError::InvalidHeader { index: 1 })
    );
    assert_eq!(
        check_headers(&vec![pair("X-A", "line\nbreak")]),
        Err(ConfigError::InvalidHeader { index: 0 })
    );
    assert!(is_valid_header("Referer", "http://a:8/b"));
    assert!(!is_valid_header("", "x"));
    assert!(!is_valid_header("a", "\u{7f}"));
    assert!(!is_valid_header("a", "\u{0}"));
}
