use reconcrab::mode::FuzzMode;
use reconcrab::probe_url::{
    construct_from_parsed, construct_url, directory_url_for, subdomain_host_for,
    subdomain_outcome, HostFailure, UrlError,
};

#[test]
fn subdomain_drops_www_label() {
    let url = construct_url("https://www.example.com", "api", FuzzMode::Subdomain);
    assert_eq!(url, Ok("https://api.example.com/".to_string()));
}

#[test]
fn subdomain_prefixes_plain_host() {
    let url = construct_url("https://example.com", "api", FuzzMode::Subdomain);
    assert_eq!(url, Ok("https://api.example.com/".to_string()));
    let url = construct_url("http://sub.example.com:8080/x?y=1", "dev", FuzzMode::Subdomain);
    assert_eq!(url, Ok("http://dev.sub.example.com:8080/x?y=1".to_string()));
}

#[test]
fn subdomain_host_is_word_dot_host() {
    assert_eq!(subdomain_host_for("www.example.com", "api"), "api.example.com");
    assert_eq!(subdomain_host_for("example.com", "api"), "api.example.com");
    assert_eq!(subdomain_host_for("wwwexample.com", "api"), "api.wwwexample.com");
    assert_eq!(subdomain_host_for("www.", "a"), "a.");
    assert_eq!(subdomain_host_for("www", "a"), "a.www");
}

#[test]
fn directory_joins_with_one_slash() {
    assert_eq!(
        construct_url("https://example.com", "admin", FuzzMode::Directory),
        Ok("https://example.com/admin".to_string())
    );
    assert_eq!(
        construct_url("https://example.com///", "admin", FuzzMode::Directory),
        Ok("https://example.com/admin".to_string())
    );
    assert_eq!(
        construct_url("https://example.com/base/", "api/v1", FuzzMode::Directory),
        Ok("https://example.com/base/api/v1".to_string())
    );
}

#[test]
fn directory_leading_slash_is_normalized() {
    let plain = construct_url("https://example.com", "api", FuzzMode::Directory);
    let slashed = construct_url("https://example.com", "/api", FuzzMode::Directory);
    assert_eq!(plain, slashed);
    assert_eq!(plain, Ok("https://example.com/api".to_string()));
    assert_eq!(directory_url_for("http://h", "/"), "http://h/");
    assert_eq!(directory_url_for("http://h", ""), "http://h/");
    assert_eq!(directory_url_for("http://h", "//x"), "http://h//x");
    assert_eq!(directory_url_for("http://h", "a/../b c"), "http://h/a/../b c");
}

#[test]
fn malformed_base_is_refused() {
    assert_eq!(
        construct_url("not a url", "api", FuzzMode::Directory),
        Err(UrlError::MalformedBaseUrl)
    );
    assert_eq!(
        construct_url("example.com", "api", FuzzMode::Subdomain),
        Err(UrlError::MalformedBaseUrl)
    );
    assert_eq!(
        construct_url("mailto:rms@example.net", "api", FuzzMode::Subdomain),
        Err(UrlError::MalformedBaseUrl)
    );
    assert_eq!(
        construct_url("mailto:rms@example.net", "api", FuzzMode::Directory),
        Err(UrlError::MalformedBaseUrl)
    );
}

#[test]
fn invalid_host_is_refused() {
    assert_eq!(
        construct_url("https://example.com", "a b", FuzzMode::Subdomain),
        Err(UrlError::InvalidHost)
    );
    assert_eq!(
        construct_url("https://example.com", "a%b", FuzzMode::Subdomain),
        Err(UrlError::InvalidHost)
    );
}

#[test]
fn label_before_ip_literal_is_no_host() {
    let url = construct_url("http://127.0.0.1", "api", FuzzMode::Subdomain);
    assert_eq!(url, Err(UrlError::InvalidHost));
    let url = construct_url("http://127.0.0.1", "api", FuzzMode::Directory);
    assert_eq!(url, Ok("http://127.0.0.1/api".to_string()));
}

#[test]
fn host_failures_map_to_errors() {
    assert_eq!(subdomain_outcome(Ok("http://a.b/".to_string())), Ok("http://a.b/".to_string()));
    assert_eq!(subdomain_outcome(Err(HostFailure::Rejected)), Err(UrlError::InvalidHost));
    assert_eq!(
        subdomain_outcome(Err(HostFailure::Unsupported)),
        Err(UrlError::UnsupportedHostMutation)
    );
}

#[test]
fn parsed_base_without_host_is_malformed() {
    assert_eq!(
        construct_from_parsed("x", "w", FuzzMode::Directory, None),
        Err(UrlError::MalformedBaseUrl)
    );
    assert_eq!(
        construct_from_parsed("x:/p", "w", FuzzMode::Subdomain, Some(None)),
        Err(UrlError::MalformedBaseUrl)
    );
    assert_eq!(
        construct_from_parsed(
            "https://www.example.com",
            "w",
            FuzzMode::Subdomain,
            Some(Some("www.example.com".to_string()))
        ),
        Ok("https://w.example.com/".to_string())
    );
}
