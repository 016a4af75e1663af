//! Client identities: the browser names a probe may carry.

use vstd::prelude::*;

verus! {

/// How many identities the pool holds.
pub const IDENTITY_COUNT: usize = 25;

pub const IDENTITY_0: &'static str =
    "Mozilla/5.0 (Macintosh; Intel Mac OS X 10_11_6) AppleWebKit/537.36 (KHTML, like Gecko) Chrome/53.0.2785.143 Safari/537.36";

pub const IDENTITY_1: &'static str =
    "Mozilla/5.0 (Macintosh; Intel Mac OS X 10_11_6) AppleWebKit/537.36 (KHTML, like Gecko) Chrome/54.0.2840.71 Safari/537.36";

pub const IDENTITY_2: &'static str =
    "Mozilla/5.0 (Macintosh; Intel Mac OS X 10_11_6) AppleWebKit/602.1.50 (KHTML, like Gecko) Version/10.0 Safari/602.1.50";

pub const IDENTITY_3: &'static str =
    "Mozilla/5.0 (Macintosh; Intel Mac OS X 10.11; rv:49.0) Gecko/20100101 Firefox/49.0";

pub const IDENTITY_4: &'static str =
    "Mozilla/5.0 (Macintosh; Intel Mac OS X 10_12_0) AppleWebKit/537.36 (KHTML, like Gecko) Chrome/53.0.2785.143 Safari/537.36";

pub const IDENTITY_5: &'static str =
    "Mozilla/5.0 (Macintosh; Intel Mac OS X 10_12_0) AppleWebKit/537.36 (KHTML, like Gecko) Chrome/54.0.2840.71 Safari/537.36";

pub const IDENTITY_6: &'static str =
    "Mozilla/5.0 (Macintosh; Intel Mac OS X 10_12_1) AppleWebKit/537.36 (KHTML, like Gecko) Chrome/54.0.2840.71 Safari/537.36";

pub const IDENTITY_7: &'static str =
    "Mozilla/5.0 (Macintosh; Intel Mac OS X 10_12_1) AppleWebKit/602.2.14 (KHTML, like Gecko) Version/10.0.1 Safari/602.2.14";

pub const IDENTITY_8: &'static str =
    "Mozilla/5.0 (Macintosh; Intel Mac OS X 10_12) AppleWebKit/602.1.50 (KHTML, like Gecko) Version/10.0 Safari/602.1.50";

pub const IDENTITY_9: &'static str =
    "Mozilla/5.0 (Windows NT 10.0; Win64; x64) AppleWebKit/537.36 (KHTML, like Gecko) Chrome/51.0.2704.79 Safari/537.36 Edge/14.14393";

pub const IDENTITY_10: &'static str =
    "Mozilla/5.0 (Windows NT 10.0; Win64; x64) AppleWebKit/537.36 (KHTML, like Gecko) Chrome/53.0.2785.143 Safari/537.36";

pub const IDENTITY_11: &'static str =
    "Mozilla/5.0 (Windows NT 10.0; Win64; x64) AppleWebKit/537.36 (KHTML, like Gecko) Chrome/54.0.2840.71 Safari/537.36";

pub const IDENTITY_12: &'static str =
    "Mozilla/5.0 (Windows NT 10.0; WOW64) AppleWebKit/537.36 (KHTML, like Gecko) Chrome/53.0.2785.143 Safari/537.36";

pub const IDENTITY_13: &'static str =
    "Mozilla/5.0 (Windows NT 10.0; WOW64) AppleWebKit/537.36 (KHTML, like Gecko) Chrome/54.0.2840.71 Safari/537.36";

pub const IDENTITY_14: &'static str =
    "Mozilla/5.0 (Windows NT 10.0; WOW64; rv:49.0) Gecko/20100101 Firefox/49.0";

pub const IDENTITY_15: &'static str =
    "Mozilla/5.0 (Windows NT 6.1; Win64; x64) AppleWebKit/537.36 (KHTML, like Gecko) Chrome/53.0.2785.143 Safari/537.36";

pub const IDENTITY_16: &'static str =
    "Mozilla/5.0 (Windows NT 6.1; Win64; x64) AppleWebKit/537.36 (KHTML, like Gecko) Chrome/54.0.2840.71 Safari/537.36";

pub const IDENTITY_17: &'static str =
    "Mozilla/5.0 (Windows NT 6.1; WOW64) AppleWebKit/537.36 (KHTML, like Gecko) Chrome/53.0.2785.143 Safari/537.36";

pub const IDENTITY_18: &'static str =
    "Mozilla/5.0 (Windows NT 6.1; WOW64) AppleWebKit/537.36 (KHTML, like Gecko) Chrome/54.0.2840.71 Safari/537.36";

pub const IDENTITY_19: &'static str =
    "Mozilla/5.0 (Windows NT 6.1; WOW64; rv:49.0) Gecko/20100101 Firefox/49.0";

pub const IDENTITY_20: &'static str =
    "Mozilla/5.0 (Windows NT 6.1; WOW64; Trident/7.0; rv:11.0) like Gecko";

pub const IDENTITY_21: &'static str =
    "Mozilla/5.0 (Windows NT 6.3; rv:36.0) Gecko/20100101 Firefox/36.0";

pub const IDENTITY_22: &'static str =
    "Mozilla/5.0 (Windows NT 6.3; WOW64) AppleWebKit/537.36 (KHTML, like Gecko) Chrome/53.0.2785.143 Safari/537.36";

pub const IDENTITY_23: &'static str =
    "Mozilla/5.0 (X11; Linux x86_64) AppleWebKit/537.36 (KHTML, like Gecko) Chrome/53.0.2785.143 Safari/537.36";

pub const IDENTITY_24: &'static str =
    "Mozilla/5.0 (X11; Ubuntu; Linux x86_64; rv:49.0) Gecko/20100101 Firefox/49.0";

/// The pool: realistic browser identity strings. They keep the tool from being
/// recognised at a glance; they hide nobody.
pub open spec fn identity_pool() -> Seq<Seq<char>> {
    seq![
        IDENTITY_0@,
        IDENTITY_1@,
        IDENTITY_2@,
        IDENTITY_3@,
        IDENTITY_4@,
        IDENTITY_5@,
        IDENTITY_6@,
        IDENTITY_7@,
        IDENTITY_8@,
        IDENTITY_9@,
        IDENTITY_10@,
        IDENTITY_11@,
        IDENTITY_12@,
        IDENTITY_13@,
        IDENTITY_14@,
        IDENTITY_15@,
        IDENTITY_16@,
        IDENTITY_17@,
        IDENTITY_18@,
        IDENTITY_19@,
        IDENTITY_20@,
        IDENTITY_21@,
        IDENTITY_22@,
        IDENTITY_23@,
        IDENTITY_24@,
    ]
}

/// The identity at place `index` of the pool.
pub fn identity_at(index: usize) -> (r: &'static str)
    requires
        index < IDENTITY_COUNT,
    ensures
        r@ == identity_pool()[index as int],
{
    if index == 0 {
        IDENTITY_0
    } else if index == 1 {
        IDENTITY_1
    } else if index == 2 {
        IDENTITY_2
    } else if index == 3 {
        IDENTITY_3
    } else if index == 4 {
        IDENTITY_4
    } else if index == 5 {
        IDENTITY_5
    } else if index == 6 {
        IDENTITY_6
    } else if index == 7 {
        IDENTITY_7
    } else if index == 8 {
        IDENTITY_8
    } else if index == 9 {
        IDENTITY_9
    } else if index == 10 {
        IDENTITY_10
    } else if index == 11 {
        IDENTITY_11
    } else if index == 12 {
        IDENTITY_12
    } else if index == 13 {
        IDENTITY_13
    } else if index == 14 {
        IDENTITY_14
    } else if index == 15 {
        IDENTITY_15
    } else if index == 16 {
        IDENTITY_16
    } else if index == 17 {
        IDENTITY_17
    } else if index == 18 {
        IDENTITY_18
    } else if index == 19 {
        IDENTITY_19
    } else if index == 20 {
        IDENTITY_20
    } else if index == 21 {
        IDENTITY_21
    } else if index == 22 {
        IDENTITY_22
    } else if index == 23 {
        IDENTITY_23
    } else {
        IDENTITY_24
    }
}

/// Calls `rand::rng()` and `Rng::random_range` with the range `0..bound`. Not
/// proved: the number drawn lies in that range. An empty range, on which the
/// call panics, is left out.
#[verifier::external_body]
fn random_below(bound: usize) -> (r: usize)
    requires
        bound > 0,
    ensures
        r < bound,
{
    ::rand::Rng::random_range(&mut ::rand::rng(), 0..bound)
}

/// The identity for a drawn number: the one at that place, the last one for a
/// number beyond the pool.
pub fn identity_for(drawn: usize) -> (r: &'static str)
    ensures
        r@ == identity_pool()[if drawn < IDENTITY_COUNT {
            drawn as int
        } else {
            IDENTITY_COUNT - 1
        }],
        identity_pool().contains(r@),
{
    if drawn < IDENTITY_COUNT {
        identity_at(drawn)
    } else {
        identity_at(IDENTITY_COUNT - 1)
    }
}

/// Draws an identity from the pool at random. Which one comes is open; that it
/// is one of the pool is not.
pub fn pick_identity() -> (r: &'static str)
    ensures
        identity_pool().contains(r@),
{
    identity_for(random_below(IDENTITY_COUNT))
}

} // verus!
