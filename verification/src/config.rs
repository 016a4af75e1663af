//! The settings of a run, and how they are read from what the user gave.

use vstd::prelude::*;
use vstd::string::*;
use crate::error::ConfigError;
use crate::text::{find_char, first_index, starts_with, trim, trim_end_char, trimmed, without_trailing};
use crate::throttle::{MAX_CPU_MILLI, MIN_CPU_MILLI};
use crate::wordlist::texts;

verus! {

/// The concurrency limit of a run that names none.
pub const DEFAULT_CONCURRENT_REQUESTS: usize = 500000;

/// The CPU ceiling of a run that names none: 50 %, in thousandths of a percent.
pub const DEFAULT_MAX_CPU_MILLI: u32 = 50000;

/// The timeout of one attempt, in seconds.
pub const ATTEMPT_TIMEOUT_SECS: u64 = 15;

/// How often a failed attempt is repeated.
pub const MAX_RETRIES: u8 = 2;

/// A list of keys with their values.
pub type Pairs = Seq<(Seq<char>, Seq<char>)>;

/// The contents of a list of pairs of strings.
pub open spec fn pair_views(v: Seq<(String, String)>) -> Pairs {
    Seq::new(v.len(), |i: int| (v[i].0@, v[i].1@))
}

/// No key stands twice in the list.
pub open spec fn distinct_keys(m: Pairs) -> bool {
    forall|i: int, j: int| 0 <= i < j < m.len() ==> (#[trigger] m[i]).0 != (#[trigger] m[j]).0
}

/// Whether the list holds the key.
pub open spec fn has_key(m: Pairs, key: Seq<char>) -> bool {
    exists|i: int| 0 <= i < m.len() && (#[trigger] m[i]).0 == key
}

/// Where the list holds the key.
pub open spec fn key_position(m: Pairs, key: Seq<char>) -> int {
    choose|i: int| 0 <= i < m.len() && (#[trigger] m[i]).0 == key
}

/// The list with `key` set to `value`: a key that is there keeps its place and
/// gets the new value, a new key goes to the end.
pub open spec fn upserted(m: Pairs, key: Seq<char>, value: Seq<char>) -> Pairs {
    if has_key(m, key) {
        m.update(key_position(m, key), (key, value))
    } else {
        m.push((key, value))
    }
}

/// Whether a `key:value` argument can be split: it holds a colon.
pub open spec fn well_formed(pair: Seq<char>) -> bool {
    pair.contains(':')
}

/// The key of an argument: what stands before its first colon, trimmed.
pub open spec fn key_of(pair: Seq<char>) -> Seq<char> {
    trimmed(pair.subrange(0, first_index(pair, ':')))
}

/// The value of an argument: what stands after its first colon, trimmed. It
/// may hold further colons.
pub open spec fn value_of(pair: Seq<char>) -> Seq<char> {
    trimmed(pair.subrange(first_index(pair, ':') + 1, pair.len() as int))
}

/// Whether every argument can be split.
pub open spec fn all_well_formed(pairs: Seq<Seq<char>>) -> bool {
    forall|i: int| 0 <= i < pairs.len() ==> well_formed(#[trigger] pairs[i])
}

/// Whether `i` is the first argument that cannot be split.
pub open spec fn is_first_malformed(pairs: Seq<Seq<char>>, i: int) -> bool {
    &&& 0 <= i < pairs.len()
    &&& !well_formed(pairs[i])
    &&& all_well_formed(pairs.subrange(0, i))
}

/// The keys and values of a list of arguments, each set in turn: of two
/// arguments with one key the later value stands.
pub open spec fn folded(pairs: Seq<Seq<char>>) -> Pairs
    decreases pairs.len(),
{
    if pairs.len() == 0 {
        Seq::empty()
    } else {
        upserted(folded(pairs.drop_last()), key_of(pairs.last()), value_of(pairs.last()))
    }
}

/// The target with `http://` put before it unless it names `http` or `https` itself.
pub open spec fn with_scheme(target: Seq<char>) -> Seq<char> {
    if seq!['h', 't', 't', 'p', ':', '/', '/'].is_prefix_of(target) || seq![
        'h',
        't',
        't',
        'p',
        's',
        ':',
        '/',
        '/',
    ].is_prefix_of(target) {
        target
    } else {
        seq!['h', 't', 't', 'p', ':', '/', '/'] + target
    }
}

/// The base URL of a run: the target with its scheme, without trailing slashes.
pub open spec fn normalized_target(target: Seq<char>) -> Seq<char> {
    without_trailing(with_scheme(target), '/')
}

/// Whether a CPU ceiling lies between 1 % and 100 %.
pub open spec fn cpu_in_range(max_cpu_milli: u32) -> bool {
    MIN_CPU_MILLI <= max_cpu_milli <= MAX_CPU_MILLI
}

/// The text of the cookie header: `key=value` for each cookie, joined by `; `.
pub open spec fn cookie_text(cookies: Pairs) -> Seq<char>
    decreases cookies.len(),
{
    if cookies.len() == 0 {
        Seq::empty()
    } else if cookies.len() == 1 {
        cookies[0].0 + seq!['='] + cookies[0].1
    } else {
        cookie_text(cookies.drop_last()) + seq![';', ' '] + cookies.last().0 + seq!['=']
            + cookies.last().1
    }
}

/// The settings of a run. Built once, then only read.
#[derive(Clone, Debug)]
pub struct Config {
    pub target_url: String,
    pub wordlist_file: String,
    pub concurrent_requests: usize,
    pub headers: Vec<(String, String)>,
    pub cookies: Vec<(String, String)>,
    pub timeout_secs: u64,
    pub max_retries: u8,
    /// The CPU ceiling in thousandths of a percent.
    pub max_cpu_milli: u32,
}

/// Splits a `key:value` argument at its first colon and trims both parts.
pub fn split_pair(pair: &str) -> (r: Option<(String, String)>)
    ensures
        match r {
            Some(parts) => well_formed(pair@) && parts.0@ == key_of(pair@) && parts.1@ == value_of(
                pair@,
            ),
            None => !well_formed(pair@),
        },
{
    match find_char(pair, ':') {
        Some(colon) => {
            let n: usize = pair.unicode_len();
            let key = trim(pair.substring_char(0, colon));
            let value = trim(pair.substring_char(colon + 1, n));
            Some((key, value))
        },
        None => None,
    }
}

/// Sets `key` to `value` in a list without repeated keys.
pub fn upsert(map: &mut Vec<(String, String)>, key: String, value: String)
    requires
        distinct_keys(pair_views(old(map)@)),
    ensures
        pair_views(final(map)@) == upserted(pair_views(old(map)@), key@, value@),
        distinct_keys(pair_views(final(map)@)),
{
    let ghost before = pair_views(map@);
    let mut i: usize = 0;
    while i < map.len()
        invariant
            i <= map.len(),
            pair_views(map@) == before,
            before == pair_views(old(map)@),
            distinct_keys(before),
            forall|k: int| 0 <= k < i ==> (#[trigger] before[k]).0 != key@,
        decreases map.len() - i,
    {
        if map[i].0 == key {
            proof {
                assert(before[i as int].0 == key@);
                assert(has_key(before, key@));
                let found = key_position(before, key@);
                assert(before[found].0 == key@);
                assert(found == i as int);
            }
            let ghost k = key@;
            let ghost v = value@;
            map.set(i, (key, value));
            proof {
                assert(pair_views(map@) =~= before.update(i as int, (k, v)));
                assert forall|a: int, b: int| 0 <= a < b < before.len() implies (
                #[trigger] before.update(i as int, (k, v))[a]).0 != (#[trigger] before.update(
                    i as int,
                    (k, v),
                )[b]).0 by {
                    assert(before[a].0 != before[b].0);
                }
            }
            return ;
        }
        i += 1;
    }
    let ghost k = key@;
    let ghost v = value@;
    map.push((key, value));
    proof {
        assert(pair_views(map@) =~= before.push((k, v)));
        assert(!has_key(before, k));
        assert forall|a: int, b: int| 0 <= a < b < before.len() + 1 implies (
        #[trigger] before.push((k, v))[a]).0 != (#[trigger] before.push((k, v))[b]).0 by {
            if b < before.len() {
                assert(before[a].0 != before[b].0);
            } else {
                assert(before[a].0 != k);
            }
        }
    }
}

/// Reading one argument more sets its key to its value.
proof fn folded_step(pairs: Seq<Seq<char>>, i: int)
    requires
        0 <= i < pairs.len(),
    ensures
        folded(pairs.subrange(0, i + 1)) == upserted(
            folded(pairs.subrange(0, i)),
            key_of(pairs[i]),
            value_of(pairs[i]),
        ),
{
    let upto = pairs.subrange(0, i + 1);
    assert(upto.drop_last() =~= pairs.subrange(0, i));
    assert(upto.last() == pairs[i]);
}

/// A list of arguments that can be split stays one with one such argument more.
proof fn well_formed_step(pairs: Seq<Seq<char>>, i: int)
    requires
        0 <= i < pairs.len(),
        all_well_formed(pairs.subrange(0, i)),
        well_formed(pairs[i]),
    ensures
        all_well_formed(pairs.subrange(0, i + 1)),
{
    let upto = pairs.subrange(0, i + 1);
    assert forall|k: int| 0 <= k < upto.len() implies well_formed(#[trigger] upto[k]) by {
        if k < i {
            assert(upto[k] == pairs.subrange(0, i)[k]);
        }
    }
}

/// The base URL of a run, from the target as the user gave it.
pub fn normalize_target(target: &str) -> (r: String)
    ensures
        r@ == normalized_target(target@),
{
    proof {
        reveal_strlit("http://");
        reveal_strlit("https://");
        assert("http://"@ =~= seq!['h', 't', 't', 'p', ':', '/', '/']);
        assert("https://"@ =~= seq!['h', 't', 't', 'p', 's', ':', '/', '/']);
    }
    if starts_with(target, "http://") || starts_with(target, "https://") {
        trim_end_char(target, '/')
    } else {
        let mut full = String::from_str("http://");
        full.append(target);
        trim_end_char(full.as_str(), '/')
    }
}

/// The cookie header of a request, where the run has cookies.
pub fn cookie_header(cookies: &Vec<(String, String)>) -> (r: Option<String>)
    ensures
        r is Some <==> cookies@.len() > 0,
        r is Some ==> r->0@ == cookie_text(pair_views(cookies@)),
{
    if cookies.len() == 0 {
        return None;
    }
    proof {
        reveal_strlit("=");
        reveal_strlit("; ");
        assert("="@ =~= seq!['=']);
        assert("; "@ =~= seq![';', ' ']);
    }
    let mut text = String::from_str(cookies[0].0.as_str());
    text.append("=");
    text.append(cookies[0].1.as_str());
    let mut i: usize = 1;
    proof {
        assert(pair_views(cookies@).subrange(0, 1)[0] == pair_views(cookies@)[0]);
    }
    while i < cookies.len()
        invariant
            1 <= i <= cookies.len(),
            "="@ == seq!['='],
            "; "@ == seq![';', ' '],
            text@ == cookie_text(pair_views(cookies@).subrange(0, i as int)),
        decreases cookies.len() - i,
    {
        proof {
            let upto = pair_views(cookies@).subrange(0, i as int + 1);
            assert(upto.drop_last() =~= pair_views(cookies@).subrange(0, i as int));
            assert(upto.last() == pair_views(cookies@)[i as int]);
        }
        text.append("; ");
        text.append(cookies[i].0.as_str());
        text.append("=");
        text.append(cookies[i].1.as_str());
        i += 1;
    }
    proof {
        assert(pair_views(cookies@).subrange(0, i as int) =~= pair_views(cookies@));
    }
    Some(text)
}

impl Config {
    /// Reads a list of `key:value` arguments into keys and values. The first
    /// argument without a colon stops the reading with its index.
    pub fn parse_key_value_pairs(pairs: Vec<String>) -> (r: Result<Vec<(String, String)>, ConfigError>)
        ensures
            match r {
                Ok(m) => all_well_formed(texts(pairs@)) && pair_views(m@) == folded(texts(pairs@))
                    && distinct_keys(pair_views(m@)),
                Err(e) => exists|i: int|
                    is_first_malformed(texts(pairs@), i) && e == (ConfigError::MalformedKeyValue {
                        index: i as usize,
                    }),
            },
    {
        let mut map: Vec<(String, String)> = Vec::new();
        let mut i: usize = 0;
        proof {
            assert(texts(pairs@).subrange(0, 0) =~= Seq::<Seq<char>>::empty());
            assert(pair_views(map@) =~= Seq::empty());
        }
        while i < pairs.len()
            invariant
                i <= pairs.len(),
                all_well_formed(texts(pairs@).subrange(0, i as int)),
                pair_views(map@) == folded(texts(pairs@).subrange(0, i as int)),
                distinct_keys(pair_views(map@)),
            decreases pairs.len() - i,
        {
            let ghost all = texts(pairs@);
            proof {
                assert(all[i as int] == pairs@[i as int]@);
            }
            match split_pair(pairs[i].as_str()) {
                Some((key, value)) => {
                    upsert(&mut map, key, value);
                    proof {
                        folded_step(all, i as int);
                        well_formed_step(all, i as int);
                    }
                },
                None => {
                    proof {
                        assert(is_first_malformed(all, i as int));
                    }
                    return Err(ConfigError::MalformedKeyValue { index: i });
                },
            }
            i += 1;
        }
        proof {
            assert(texts(pairs@).subrange(0, i as int) =~= texts(pairs@));
        }
        Ok(map)
    }

    /// Whether the settings keep what `new` establishes.
    pub open spec fn wf(&self) -> bool {
        &&& cpu_in_range(self.max_cpu_milli)
        &&& distinct_keys(pair_views(self.headers@))
        &&& distinct_keys(pair_views(self.cookies@))
    }

    /// Builds the settings of a run. Headers are read first, then cookies,
    /// then the CPU ceiling is checked; the first fault is returned.
    pub fn new(
        target_url: String,
        wordlist_file: String,
        concurrent_requests: Option<usize>,
        headers: Option<Vec<String>>,
        cookies: Option<Vec<String>>,
        max_cpu_milli: Option<u32>,
    ) -> (r: Result<Config, ConfigError>)
        ensures
            match r {
                Ok(c) => {
                    &&& c.wf()
                    &&& all_well_formed(arguments(headers))
                    &&& all_well_formed(arguments(cookies))
                    &&& c.target_url@ == normalized_target(target_url@)
                    &&& c.wordlist_file@ == wordlist_file@
                    &&& c.concurrent_requests == match concurrent_requests {
                        Some(n) => n,
                        None => DEFAULT_CONCURRENT_REQUESTS,
                    }
                    &&& pair_views(c.headers@) == folded(arguments(headers))
                    &&& pair_views(c.cookies@) == folded(arguments(cookies))
                    &&& c.timeout_secs == ATTEMPT_TIMEOUT_SECS
                    &&& c.max_retries == MAX_RETRIES
                    &&& c.max_cpu_milli == ceiling(max_cpu_milli)
                },
                Err(e) => if !all_well_formed(arguments(headers)) {
                    exists|i: int|
                        is_first_malformed(arguments(headers), i) && e == (
                        ConfigError::MalformedKeyValue { index: i as usize })
                } else if !all_well_formed(arguments(cookies)) {
                    exists|i: int|
                        is_first_malformed(arguments(cookies), i) && e == (
                        ConfigError::MalformedKeyValue { index: i as usize })
                } else {
                    e == ConfigError::CpuOutOfRange && !cpu_in_range(ceiling(max_cpu_milli))
                },
            },
    {
        let concurrent_requests: usize = match concurrent_requests {
            Some(n) => n,
            None => DEFAULT_CONCURRENT_REQUESTS,
        };
        let ghost header_arguments = arguments(headers);
        let ghost cookie_arguments = arguments(cookies);
        let header_list: Vec<String> = match headers {
            Some(list) => list,
            None => Vec::new(),
        };
        let cookie_list: Vec<String> = match cookies {
            Some(list) => list,
            None => Vec::new(),
        };
        proof {
            assert(texts(header_list@) =~= header_arguments);
            assert(texts(cookie_list@) =~= cookie_arguments);
        }
        let headers = match Self::parse_key_value_pairs(header_list) {
            Ok(m) => m,
            Err(e) => {
                proof {
                    let i = choose|i: int| is_first_malformed(header_arguments, i);
                    assert(!well_formed(header_arguments[i]));
                }
                return Err(e);
            },
        };
        let cookies = match Self::parse_key_value_pairs(cookie_list) {
            Ok(m) => m,
            Err(e) => {
                proof {
                    let i = choose|i: int| is_first_malformed(cookie_arguments, i);
                    assert(!well_formed(cookie_arguments[i]));
                }
                return Err(e);
            },
        };
        let target_url = normalize_target(target_url.as_str());
        let max_cpu_milli: u32 = match max_cpu_milli {
            Some(c) => c,
            None => DEFAULT_MAX_CPU_MILLI,
        };
        if max_cpu_milli < MIN_CPU_MILLI || max_cpu_milli > MAX_CPU_MILLI {
            return Err(ConfigError::CpuOutOfRange);
        }
        Ok(
            Config {
                target_url,
                wordlist_file,
                concurrent_requests,
                headers,
                cookies,
                timeout_secs: ATTEMPT_TIMEOUT_SECS,
                max_retries: MAX_RETRIES,
                max_cpu_milli,
            },
        )
    }
}

/// The arguments given, none where the option is absent.
pub open spec fn arguments(list: Option<Vec<String>>) -> Seq<Seq<char>> {
    match list {
        Some(v) => texts(v@),
        None => Seq::empty(),
    }
}

/// The CPU ceiling given, or the default.
pub open spec fn ceiling(max_cpu_milli: Option<u32>) -> u32 {
    match max_cpu_milli {
        Some(c) => c,
        None => DEFAULT_MAX_CPU_MILLI,
    }
}

} // verus!
