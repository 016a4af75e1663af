//! From the lines of a word list to the words that are probed.

use vstd::prelude::*;
use crate::error::ConfigError;
use crate::text::{trim, trimmed};

verus! {

/// The contents of a list of strings.
pub open spec fn texts(v: Seq<String>) -> Seq<Seq<char>> {
    Seq::new(v.len(), |i: int| v[i]@)
}

/// Whether a line yields a word: after trimming it is neither empty nor a
/// comment (a line that begins with `#`).
pub open spec fn is_entry(line: Seq<char>) -> bool {
    trimmed(line).len() > 0 && trimmed(line)[0] != '#'
}

/// The words of a list of lines: each entry trimmed, in the order of the lines.
pub open spec fn entries(lines: Seq<Seq<char>>) -> Seq<Seq<char>>
    decreases lines.len(),
{
    if lines.len() == 0 {
        Seq::empty()
    } else if is_entry(lines.last()) {
        entries(lines.drop_last()).push(trimmed(lines.last()))
    } else {
        entries(lines.drop_last())
    }
}

/// Trims a line and says whether it is a word.
pub fn entry_of(line: &str) -> (r: Option<String>)
    ensures
        r is Some <==> is_entry(line@),
        r is Some ==> r->0@ == trimmed(line@),
{
    let t = trim(line);
    if t.as_str().unicode_len() > 0 && t.as_str().get_char(0) != '#' {
        Some(t)
    } else {
        None
    }
}

/// Drops blank lines and comments and trims the rest. A list that leaves no
/// word is refused with `EmptyWordlist`.
pub fn filter_wordlist(lines: &Vec<String>) -> (r: Result<Vec<String>, ConfigError>)
    ensures
        match r {
            Ok(words) => texts(words@) == entries(texts(lines@)) && words@.len() > 0,
            Err(e) => e == ConfigError::EmptyWordlist && entries(texts(lines@)).len() == 0,
        },
{
    let mut words: Vec<String> = Vec::new();
    let mut i: usize = 0;
    proof {
        assert(texts(lines@).subrange(0, 0) =~= Seq::<Seq<char>>::empty());
        assert(texts(words@) =~= Seq::<Seq<char>>::empty());
    }
    while i < lines.len()
        invariant
            i <= lines.len(),
            texts(words@) == entries(texts(lines@).subrange(0, i as int)),
        decreases lines.len() - i,
    {
        let ghost before = texts(words@);
        proof {
            let upto = texts(lines@).subrange(0, i as int + 1);
            assert(upto.drop_last() =~= texts(lines@).subrange(0, i as int));
            assert(upto.last() == lines@[i as int]@);
        }
        match entry_of(lines[i].as_str()) {
            Some(word) => {
                words.push(word);
                proof {
                    assert(texts(words@) =~= before.push(trimmed(lines@[i as int]@)));
                }
            },
            None => {},
        }
        i += 1;
    }
    proof {
        assert(texts(lines@).subrange(0, i as int) =~= texts(lines@));
    }
    if words.len() == 0 {
        Err(ConfigError::EmptyWordlist)
    } else {
        Ok(words)
    }
}

} // verus!
