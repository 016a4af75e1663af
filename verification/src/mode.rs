//! Probe modes and the plan of probes for a word list.

use vstd::prelude::*;
use crate::error::ConfigError;
use crate::text::contains_char;
use crate::wordlist::{entries, filter_wordlist, texts};

verus! {

/// What a word stands for in a probe.
#[derive(Clone, Copy, Debug, PartialEq, Eq, Structural)]
pub enum FuzzMode {
    /// The word is a label put in front of the host.
    Subdomain,
    /// The word is a path under the base URL.
    Directory,
}

/// One probe to make: a word and the mode it is used in.
#[derive(Clone, Debug)]
pub struct ProbeTarget {
    pub word: String,
    pub mode: FuzzMode,
}

impl View for ProbeTarget {
    type V = (Seq<char>, FuzzMode);

    open spec fn view(&self) -> (Seq<char>, FuzzMode) {
        (self.word@, self.mode)
    }
}

/// The contents of a list of targets.
pub open spec fn target_views(v: Seq<ProbeTarget>) -> Seq<(Seq<char>, FuzzMode)> {
    Seq::new(v.len(), |i: int| v[i]@)
}

/// The modes a run asks for: those selected, in the order directory, subdomain;
/// directory alone where none is selected.
pub open spec fn selected_modes(directory: bool, subdomain: bool) -> Seq<FuzzMode> {
    if directory && subdomain {
        seq![FuzzMode::Directory, FuzzMode::Subdomain]
    } else if subdomain {
        seq![FuzzMode::Subdomain]
    } else {
        seq![FuzzMode::Directory]
    }
}

/// The modes a word is probed in: a word with a `/` in it is a path and is
/// probed as a directory only; any other word in the requested modes.
pub open spec fn effective_modes_of(word: Seq<char>, requested: Seq<FuzzMode>) -> Seq<FuzzMode> {
    if word.contains('/') {
        seq![FuzzMode::Directory]
    } else {
        requested
    }
}

/// The targets of one word: one for each of its modes, in their order.
pub open spec fn word_targets(word: Seq<char>, modes: Seq<FuzzMode>) -> Seq<(Seq<char>, FuzzMode)> {
    Seq::new(modes.len(), |i: int| (word, modes[i]))
}

/// The plan: the targets of each word, word after word.
pub open spec fn planned(words: Seq<Seq<char>>, requested: Seq<FuzzMode>) -> Seq<
    (Seq<char>, FuzzMode),
>
    decreases words.len(),
{
    if words.len() == 0 {
        Seq::empty()
    } else {
        planned(words.drop_last(), requested) + word_targets(
            words.last(),
            effective_modes_of(words.last(), requested),
        )
    }
}

/// The requested modes for the two selection flags.
pub fn select_modes(directory: bool, subdomain: bool) -> (r: Vec<FuzzMode>)
    ensures
        r@ == selected_modes(directory, subdomain),
{
    let mut modes: Vec<FuzzMode> = Vec::new();
    if directory || !subdomain {
        modes.push(FuzzMode::Directory);
    }
    if subdomain {
        modes.push(FuzzMode::Subdomain);
    }
    proof {
        assert(modes@ =~= selected_modes(directory, subdomain));
    }
    modes
}

/// The modes in which `word` is probed.
pub fn effective_modes(word: &str, requested: &Vec<FuzzMode>) -> (r: Vec<FuzzMode>)
    ensures
        r@ == effective_modes_of(word@, requested@),
{
    let mut modes: Vec<FuzzMode> = Vec::new();
    if contains_char(word, '/') {
        modes.push(FuzzMode::Directory);
        proof {
            assert(modes@ =~= seq![FuzzMode::Directory]);
        }
    } else {
        let mut i: usize = 0;
        while i < requested.len()
            invariant
                i <= requested.len(),
                modes@ == requested@.subrange(0, i as int),
            decreases requested.len() - i,
        {
            modes.push(requested[i]);
            proof {
                assert(modes@ =~= requested@.subrange(0, i as int + 1));
            }
            i += 1;
        }
        proof {
            assert(modes@ =~= requested@);
        }
    }
    modes
}

/// Lays out every probe of a run: for each word, in order, one target for each
/// of its effective modes.
pub fn plan_probes(words: &Vec<String>, requested: &Vec<FuzzMode>) -> (r: Vec<ProbeTarget>)
    ensures
        target_views(r@) == planned(texts(words@), requested@),
{
    let mut plan: Vec<ProbeTarget> = Vec::new();
    let mut i: usize = 0;
    proof {
        assert(texts(words@).subrange(0, 0) =~= Seq::<Seq<char>>::empty());
        assert(target_views(plan@) =~= Seq::<(Seq<char>, FuzzMode)>::empty());
    }
    while i < words.len()
        invariant
            i <= words.len(),
            target_views(plan@) == planned(texts(words@).subrange(0, i as int), requested@),
        decreases words.len() - i,
    {
        let modes = effective_modes(words[i].as_str(), requested);
        let ghost before = target_views(plan@);
        let ghost word = words@[i as int]@;
        let mut k: usize = 0;
        while k < modes.len()
            invariant
                k <= modes.len(),
                i < words.len(),
                word == words@[i as int]@,
                target_views(plan@) == before + word_targets(word, modes@.subrange(0, k as int)),
            decreases modes.len() - k,
        {
            let ghost head = target_views(plan@);
            plan.push(ProbeTarget { word: words[i].clone(), mode: modes[k] });
            proof {
                assert(target_views(plan@) =~= head.push((word, modes@[k as int])));
                assert(before + word_targets(word, modes@.subrange(0, k as int + 1)) =~= (before
                    + word_targets(word, modes@.subrange(0, k as int))).push(
                    (word, modes@[k as int]),
                ));
            }
            k += 1;
        }
        proof {
            assert(modes@.subrange(0, k as int) =~= modes@);
            let upto = texts(words@).subrange(0, i as int + 1);
            assert(upto.drop_last() =~= texts(words@).subrange(0, i as int));
            assert(upto.last() == word);
        }
        i += 1;
    }
    proof {
        assert(texts(words@).subrange(0, i as int) =~= texts(words@));
    }
    plan
}

/// From the raw lines of a word list to the plan of the run. Where the lines
/// hold no word the run is refused and no probe is planned.
pub fn prepare_probes(lines: &Vec<String>, requested: &Vec<FuzzMode>) -> (r: Result<
    Vec<ProbeTarget>,
    ConfigError,
>)
    ensures
        match r {
            Ok(plan) => entries(texts(lines@)).len() > 0 && target_views(plan@) == planned(
                entries(texts(lines@)),
                requested@,
            ),
            Err(e) => e == ConfigError::EmptyWordlist && entries(texts(lines@)).len() == 0,
        },
{
    match filter_wordlist(lines) {
        Ok(words) => Ok(plan_probes(&words, requested)),
        Err(e) => Err(e),
    }
}

/// A word with a `/` in it is probed once, as a directory, whatever modes the
/// run asks for.
pub proof fn slash_word_is_directory_only(word: Seq<char>, requested: Seq<FuzzMode>)
    requires
        word.contains('/'),
    ensures
        effective_modes_of(word, requested) == seq![FuzzMode::Directory],
        word_targets(word, effective_modes_of(word, requested)) == seq![
            (word, FuzzMode::Directory),
        ],
        forall|i: int|
            0 <= i < word_targets(word, effective_modes_of(word, requested)).len()
                ==> (#[trigger] word_targets(word, effective_modes_of(word, requested))[i]).1
                != FuzzMode::Subdomain,
{
    assert(word_targets(word, seq![FuzzMode::Directory]) =~= seq![(word, FuzzMode::Directory)]);
}

/// The plan holds one probe for each word and each of its effective modes:
/// its length grows by the number of those modes with each word.
pub proof fn plan_length_step(words: Seq<Seq<char>>, requested: Seq<FuzzMode>)
    requires
        words.len() > 0,
    ensures
        planned(words, requested).len() == planned(words.drop_last(), requested).len()
            + effective_modes_of(words.last(), requested).len(),
{
}

/// A run without words plans no probe.
pub proof fn no_words_no_probes(requested: Seq<FuzzMode>)
    ensures
        planned(Seq::empty(), requested).len() == 0,
{
}

} // verus!
