//! Probe URLs: a base URL and a word, joined as a path or as a host label.
//!
//! Parsing a URL and replacing its host are left to the `url` crate. What it
//! answers is named here by two uninterpreted functions; everything around
//! those answers is proved.

use vstd::prelude::*;
use vstd::string::*;
use crate::mode::FuzzMode;
use crate::text::{starts_with, trim_end_char, without_trailing};

verus! {

/// Why no probe URL could be built.
#[derive(Clone, Copy, Debug, PartialEq, Eq, Structural)]
pub enum UrlError {
    /// The base URL does not parse, or has no host.
    MalformedBaseUrl,
    /// The new host is not a valid host for the base URL.
    InvalidHost,
    /// The base URL is of a form whose host cannot be replaced.
    UnsupportedHostMutation,
}

/// Why the host of a URL was not replaced.
#[derive(Clone, Copy, Debug, PartialEq, Eq, Structural)]
pub enum HostFailure {
    /// The URL does not parse, or the new host is refused.
    Rejected,
    /// The URL cannot be a base, so it has no host to replace.
    Unsupported,
}

/// The longest base URL and the longest host, in characters, that are handed
/// on for host replacement.
pub const MAX_URL_CHARS: usize = 1048576;

/// What `url::Url::parse` and `Url::host_str` say of `base`: `None` where it
/// does not parse, `Some(None)` where it parses and has no host, else the host.
pub uninterp spec fn parsed_host(base: Seq<char>) -> Option<Option<Seq<char>>>;

/// What `Url::set_host` makes of `base` with the host `host`: the URL's text
/// after the replacement, or why there is none.
pub uninterp spec fn host_replaced(base: Seq<char>, host: Seq<char>) -> Result<
    Seq<char>,
    HostFailure,
>;

/// The contents of a parse result.
pub open spec fn host_view(h: Option<Option<String>>) -> Option<Option<Seq<char>>> {
    match h {
        None => None,
        Some(None) => Some(None),
        Some(Some(s)) => Some(Some(s@)),
    }
}

/// The contents of a result that holds a string.
pub open spec fn text_result<E>(r: Result<String, E>) -> Result<Seq<char>, E> {
    match r {
        Ok(s) => Ok(s@),
        Err(e) => Err(e),
    }
}

/// Calls `url::Url::parse` on `base` and `Url::host_str` on what it returns.
/// Not proved: the answer depends on `base` alone and is named
/// `parsed_host(base@)`.
#[verifier::external_body]
fn parse_host(base: &str) -> (r: Option<Option<String>>)
    ensures
        host_view(r) == parsed_host(base@),
{
    match ::url::Url::parse(base) {
        Ok(u) => Some(u.host_str().map(|h| h.to_string())),
        Err(_) => None,
    }
}

/// Calls `url::Url::parse` on `base`, `Url::set_host` with `host` on the
/// parsed URL and returns its text. Not proved: the answer depends on the two
/// strings alone and is named `host_replaced(base@, host@)`. The lengths are
/// bounded so that the rewritten URL stays far below the crate's 4 GiB limit.
#[verifier::external_body]
fn replace_host(base: &str, host: &str) -> (r: Result<String, HostFailure>)
    requires
        base@.len() <= MAX_URL_CHARS,
        host@.len() <= MAX_URL_CHARS,
    ensures
        text_result(r) == host_replaced(base@, host@),
{
    match ::url::Url::parse(base) {
        Ok(mut u) => match u.set_host(Some(host)) {
            Ok(()) => Ok(u.to_string()),
            Err(::url::ParseError::SetHostOnCannotBeABaseUrl) => Err(HostFailure::Unsupported),
            Err(_) => Err(HostFailure::Rejected),
        },
        Err(_) => Err(HostFailure::Rejected),
    }
}

/// The label `www.`.
pub open spec fn www_label() -> Seq<char> {
    seq!['w', 'w', 'w', '.']
}

/// `host` without a leading `www.` label.
pub open spec fn without_www(host: Seq<char>) -> Seq<char> {
    if www_label().is_prefix_of(host) {
        host.skip(4)
    } else {
        host
    }
}

/// The host of a subdomain probe: the word, a dot, and the base's host without
/// its `www.` label.
pub open spec fn subdomain_host(host: Seq<char>, word: Seq<char>) -> Seq<char> {
    word + seq!['.'] + without_www(host)
}

/// `word` without one leading `/`.
pub open spec fn without_leading_slash(word: Seq<char>) -> Seq<char> {
    if word.len() > 0 && word[0] == '/' {
        word.skip(1)
    } else {
        word
    }
}

/// The URL of a directory probe: the base without trailing slashes, one `/`,
/// and the word without its leading slash. Nothing is encoded or normalised.
pub open spec fn directory_url(base: Seq<char>, word: Seq<char>) -> Seq<char> {
    without_trailing(base, '/') + seq!['/'] + without_leading_slash(word)
}

/// What a subdomain probe gets from the replacement of the host.
pub open spec fn subdomain_result(
    base: Seq<char>,
    new_host: Seq<char>,
    replaced: Result<Seq<char>, HostFailure>,
) -> Result<Seq<char>, UrlError> {
    if base.len() > MAX_URL_CHARS || new_host.len() > MAX_URL_CHARS {
        Err(UrlError::InvalidHost)
    } else {
        match replaced {
            Ok(u) => Ok(u),
            Err(HostFailure::Rejected) => Err(UrlError::InvalidHost),
            Err(HostFailure::Unsupported) => Err(UrlError::UnsupportedHostMutation),
        }
    }
}

/// The probe URL for a base whose parse gave `parsed`, where replacing its host
/// gives `replaced`.
pub open spec fn constructed(
    base: Seq<char>,
    word: Seq<char>,
    mode: FuzzMode,
    parsed: Option<Option<Seq<char>>>,
    replaced: Result<Seq<char>, HostFailure>,
) -> Result<Seq<char>, UrlError> {
    match parsed {
        Some(Some(host)) => match mode {
            FuzzMode::Directory => Ok(directory_url(base, word)),
            FuzzMode::Subdomain => subdomain_result(base, subdomain_host(host, word), replaced),
        },
        _ => Err(UrlError::MalformedBaseUrl),
    }
}

/// The probe URL of `word` under `base` in `mode`, over the `url` crate's
/// answers for `base`.
pub open spec fn construct_spec(base: Seq<char>, word: Seq<char>, mode: FuzzMode) -> Result<
    Seq<char>,
    UrlError,
> {
    constructed(
        base,
        word,
        mode,
        parsed_host(base),
        match parsed_host(base) {
            Some(Some(host)) => host_replaced(base, subdomain_host(host, word)),
            _ => Err(HostFailure::Rejected),
        },
    )
}

/// The host of the subdomain probe of `word` under a base with host `host`.
pub fn subdomain_host_for(host: &str, word: &str) -> (r: String)
    ensures
        r@ == subdomain_host(host@, word@),
{
    proof {
        reveal_strlit("www.");
        reveal_strlit(".");
        assert("www."@ =~= www_label());
        assert("."@ =~= seq!['.']);
    }
    let mut label = String::from_str(word);
    label.append(".");
    if starts_with(host, "www.") {
        let n: usize = host.unicode_len();
        label.append(host.substring_char(4, n));
        proof {
            assert(host@.subrange(4, n as int) =~= host@.skip(4));
        }
    } else {
        label.append(host);
    }
    label
}

/// The URL of the directory probe of `word` under `base`.
pub fn directory_url_for(base: &str, word: &str) -> (r: String)
    ensures
        r@ == directory_url(base@, word@),
{
    proof {
        reveal_strlit("/");
        assert("/"@ =~= seq!['/']);
    }
    let mut url = trim_end_char(base, '/');
    url.append("/");
    let n: usize = word.unicode_len();
    if n > 0 && word.get_char(0) == '/' {
        url.append(word.substring_char(1, n));
        proof {
            assert(word@.subrange(1, n as int) =~= word@.skip(1));
        }
    } else {
        url.append(word);
    }
    url
}

/// What a subdomain probe returns once the host replacement has answered:
/// the rewritten URL, or the error that stands for the failure.
pub fn subdomain_outcome(replaced: Result<String, HostFailure>) -> (r: Result<String, UrlError>)
    ensures
        text_result(r) == match replaced {
            Ok(u) => Ok::<Seq<char>, UrlError>(u@),
            Err(HostFailure::Rejected) => Err(UrlError::InvalidHost),
            Err(HostFailure::Unsupported) => Err(UrlError::UnsupportedHostMutation),
        },
{
    match replaced {
        Ok(u) => Ok(u),
        Err(HostFailure::Rejected) => Err(UrlError::InvalidHost),
        Err(HostFailure::Unsupported) => Err(UrlError::UnsupportedHostMutation),
    }
}

/// The probe URL of a word whose base has already been parsed: `parsed` is
/// what the parse gave. Only a base with a host is taken; a directory probe
/// is then pure text, a subdomain probe asks for the host to be replaced.
pub fn construct_from_parsed(
    base_url: &str,
    word: &str,
    mode: FuzzMode,
    parsed: Option<Option<String>>,
) -> (r: Result<String, UrlError>)
    ensures
        text_result(r) == constructed(
            base_url@,
            word@,
            mode,
            host_view(parsed),
            match parsed {
                Some(Some(host)) => host_replaced(base_url@, subdomain_host(host@, word@)),
                _ => Err(HostFailure::Rejected),
            },
        ),
{
    match parsed {
        Some(Some(host)) => match mode {
            FuzzMode::Directory => Ok(directory_url_for(base_url, word)),
            FuzzMode::Subdomain => {
                let new_host = subdomain_host_for(host.as_str(), word);
                if base_url.unicode_len() > MAX_URL_CHARS || new_host.as_str().unicode_len()
                    > MAX_URL_CHARS {
                    Err(UrlError::InvalidHost)
                } else {
                    subdomain_outcome(replace_host(base_url, new_host.as_str()))
                }
            },
        },
        _ => Err(UrlError::MalformedBaseUrl),
    }
}

/// Builds the probe URL of `word` under `base_url`.
///
/// Fails with `MalformedBaseUrl` where the base does not parse or has no host.
/// A directory probe is the base joined with the word by exactly one `/`. A
/// subdomain probe is the base with its host replaced by the word, a dot and
/// the old host without a leading `www.`; it fails with `InvalidHost` where the
/// new host is refused or the base or the new host is longer than
/// `MAX_URL_CHARS`.
pub fn construct_url(base_url: &str, word: &str, mode: FuzzMode) -> (r: Result<String, UrlError>)
    ensures
        text_result(r) == construct_spec(base_url@, word@, mode),
{
    let parsed = parse_host(base_url);
    construct_from_parsed(base_url, word, mode, parsed)
}

/// A base with host `www.` + `rest` gives a subdomain probe the host
/// `word` + `.` + `rest`: the `www.` label is dropped.
pub proof fn www_label_is_dropped(rest: Seq<char>, word: Seq<char>)
    ensures
        subdomain_host(www_label() + rest, word) == word + seq!['.'] + rest,
{
    let host = www_label() + rest;
    assert(host.subrange(0, 4) =~= www_label());
    assert(host.skip(4) =~= rest);
}

/// A base whose host does not begin with `www.` gives a subdomain probe the
/// host `word` + `.` + host.
pub proof fn other_host_is_kept(host: Seq<char>, word: Seq<char>)
    requires
        !www_label().is_prefix_of(host),
    ensures
        subdomain_host(host, word) == word + seq!['.'] + host,
{
}

/// The host that a subdomain probe asks for is the one `subdomain_host` gives:
/// on a base that parses with host `host`, the probe is what replacing the
/// host by it yields.
pub proof fn subdomain_probe_replaces_host(base: Seq<char>, word: Seq<char>, host: Seq<char>)
    requires
        parsed_host(base) == Some(Some(host)),
        base.len() <= MAX_URL_CHARS,
        subdomain_host(host, word).len() <= MAX_URL_CHARS,
    ensures
        construct_spec(base, word, FuzzMode::Subdomain) is Ok ==> construct_spec(
            base,
            word,
            FuzzMode::Subdomain,
        ) == Ok::<Seq<char>, UrlError>(host_replaced(base, subdomain_host(host, word))->Ok_0),
        construct_spec(base, word, FuzzMode::Subdomain) is Ok <==> host_replaced(
            base,
            subdomain_host(host, word),
        ) is Ok,
{
}

/// A leading slash on the word of a directory probe changes nothing: `word`
/// and `/` + `word` give the same URL.
pub proof fn leading_slash_is_normalized(base: Seq<char>, word: Seq<char>)
    requires
        word.len() == 0 || word[0] != '/',
    ensures
        construct_spec(base, seq!['/'] + word, FuzzMode::Directory) == construct_spec(
            base,
            word,
            FuzzMode::Directory,
        ),
        directory_url(base, seq!['/'] + word) == directory_url(base, word),
{
    assert((seq!['/'] + word).skip(1) =~= word);
}

} // verus!
