//! Which custom headers the HTTP client takes.
//!
//! Header names and values are checked by the `http` types that `reqwest`
//! hands on. A header that they refuse stops the run before any probe.

use vstd::prelude::*;
use crate::config::pair_views;
use crate::error::ConfigError;

verus! {

/// Whether `HeaderName::from_bytes` takes the UTF-8 bytes of `name` as a
/// header name.
pub uninterp spec fn header_name_accepted(name: Seq<char>) -> bool;

/// A character that may stand in a header value: a tab, or anything from the
/// space on but DEL.
pub open spec fn header_value_char(c: char) -> bool {
    c == '\t' || (c as u32 >= 32 && c as u32 != 127)
}

/// Whether every character of `value` may stand in a header value.
pub open spec fn header_value_accepted(value: Seq<char>) -> bool {
    forall|i: int| 0 <= i < value.len() ==> header_value_char(#[trigger] value[i])
}

/// Whether the client takes the header.
pub open spec fn header_accepted(header: (Seq<char>, Seq<char>)) -> bool {
    header_name_accepted(header.0) && header_value_accepted(header.1)
}

/// Whether `i` is the first header that the client refuses.
pub open spec fn is_first_refused(headers: Seq<(Seq<char>, Seq<char>)>, i: int) -> bool {
    &&& 0 <= i < headers.len()
    &&& !header_accepted(headers[i])
    &&& forall|k: int| 0 <= k < i ==> header_accepted(#[trigger] headers[k])
}

/// Calls `reqwest::header::HeaderName::from_bytes` on the bytes of `name` and
/// says whether it returned a name. Not proved: the answer depends on `name`
/// alone and is named `header_name_accepted(name@)`.
#[verifier::external_body]
fn accepts_header_name(name: &str) -> (b: bool)
    ensures
        b == header_name_accepted(name@),
{
    ::reqwest::header::HeaderName::from_bytes(name.as_bytes()).is_ok()
}

/// Calls `reqwest::header::HeaderValue::from_str` on `value` and says whether
/// it returned a value. Not proved: it refuses a string exactly when one of
/// its bytes is below 32 and no tab, or is 127; the bytes of a character
/// beyond ASCII are all above 127.
#[verifier::external_body]
fn accepts_header_value(value: &str) -> (b: bool)
    ensures
        b == header_value_accepted(value@),
{
    ::reqwest::header::HeaderValue::from_str(value).is_ok()
}

/// Whether the client takes the header `name: value`.
pub fn is_valid_header(name: &str, value: &str) -> (b: bool)
    ensures
        b == header_accepted((name@, value@)),
{
    accepts_header_name(name) && accepts_header_value(value)
}

/// Checks the custom headers of a run in their order. The first one that the
/// client refuses is returned with its index.
pub fn check_headers(headers: &Vec<(String, String)>) -> (r: Result<(), ConfigError>)
    ensures
        match r {
            Ok(_) => forall|i: int|
                0 <= i < headers@.len() ==> header_accepted(#[trigger] pair_views(headers@)[i]),
            Err(e) => exists|i: int|
                is_first_refused(pair_views(headers@), i) && e == (ConfigError::InvalidHeader {
                    index: i as usize,
                }),
        },
{
    let mut i: usize = 0;
    while i < headers.len()
        invariant
            i <= headers.len(),
            forall|k: int| 0 <= k < i ==> header_accepted(#[trigger] pair_views(headers@)[k]),
        decreases headers.len() - i,
    {
        if !is_valid_header(headers[i].0.as_str(), headers[i].1.as_str()) {
            proof {
                assert(is_first_refused(pair_views(headers@), i as int));
            }
            return Err(ConfigError::InvalidHeader { index: i });
        }
        i += 1;
    }
    Ok(())
}

} // verus!
