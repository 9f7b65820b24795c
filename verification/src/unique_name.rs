//! Resolving a meeting folder name to one that is not taken yet.
//!
//! On collision `_2`, `_3`, … are appended. Two meetings started in the same
//! minute with the same name would otherwise land in one folder and overwrite
//! each other's `audio.mp4`. Which names are taken is known only to the file
//! system, so the search is a step function: the caller probes the name that a
//! step proposes and hands the answer to `after_probe`, which either settles on
//! that name or proposes the next one.

use vstd::prelude::*;
use crate::clock;
use crate::clock::current_time_with_seconds;
use crate::meeting_folder::MAX_UNIQUE_ATTEMPTS;
use crate::text;
use crate::text::{push_decimal, string_push};

verus! {

/// `<folder_name>_<suffix>`.
pub open spec fn numbered_name(folder_name: Seq<char>, suffix: Seq<char>) -> Seq<char> {
    folder_name + seq!['_'] + suffix
}

/// The name tried at the given attempt: the bare name first, then `_2`, `_3`, …
pub open spec fn candidate_name(folder_name: Seq<char>, attempt: nat) -> Seq<char> {
    if attempt <= 1 {
        folder_name
    } else {
        numbered_name(folder_name, text::decimal(attempt))
    }
}

/// The name tried at `attempt`: the bare name first, then `_2`, `_3`, …
pub fn candidate(folder_name: &str, attempt: u32) -> (name: String)
    ensures
        name@ == candidate_name(folder_name@, attempt as nat),
{
    let mut name = folder_name.to_owned();
    if attempt > 1 {
        string_push(&mut name, '_');
        push_decimal(&mut name, attempt);
    }
    name
}

/// One step of the search for a free folder name.
#[derive(Debug)]
pub enum UniqueNameStep {
    /// Check whether an entry of this name exists, then ask `after_probe`
    /// with this attempt and the answer.
    Probe { name: String, attempt: u32 },
    /// Use this name: it was found free, or every numbered name is taken and
    /// this one ends with the time of day to the millisecond.
    Use(String),
    /// Every numbered name is taken and the clock cannot be read for the
    /// fallback name.
    ClockUnavailable,
}

/// The search for a free folder name at `attempt` (counted from 1): probe the
/// candidate of that attempt, or, past the last numbered attempt, use a name
/// with a finer timestamp.
pub fn unique_name_step(folder_name: &str, attempt: u32) -> (step: UniqueNameStep)
    ensures
        attempt <= MAX_UNIQUE_ATTEMPTS ==> (step matches UniqueNameStep::Probe { name, attempt: a }
            && a == attempt && name@ == candidate_name(folder_name@, attempt as nat)),
        attempt > MAX_UNIQUE_ATTEMPTS ==> (step is ClockUnavailable || (
        step matches UniqueNameStep::Use(name) && exists|suffix: Seq<char>|
            clock::is_seconds_time(suffix) && name@ == numbered_name(folder_name@, suffix))),
{
    if attempt > MAX_UNIQUE_ATTEMPTS {
        match current_time_with_seconds() {
            Some(suffix) => {
                let name = fallback_unique_name(folder_name, suffix.as_str());
                assert(clock::is_seconds_time(suffix@) && name@ == numbered_name(
                    folder_name@,
                    suffix@,
                ));
                UniqueNameStep::Use(name)
            },
            None => UniqueNameStep::ClockUnavailable,
        }
    } else {
        UniqueNameStep::Probe { name: candidate(folder_name, attempt), attempt }
    }
}

/// The next step once the candidate of `attempt` has been probed: use it when
/// no entry of that name exists (`taken` is false), else go on with the next
/// attempt.
pub fn after_probe(folder_name: &str, attempt: u32, taken: bool) -> (step: UniqueNameStep)
    requires
        attempt < u32::MAX,
    ensures
        !taken ==> (step matches UniqueNameStep::Use(name) && name@ == candidate_name(
            folder_name@,
            attempt as nat,
        )),
        taken && attempt + 1 <= MAX_UNIQUE_ATTEMPTS ==> (step matches UniqueNameStep::Probe {
            name,
            attempt: a,
        } && a == attempt + 1 && name@ == candidate_name(folder_name@, (attempt + 1) as nat)),
        taken && attempt + 1 > MAX_UNIQUE_ATTEMPTS ==> (step is ClockUnavailable || (
        step matches UniqueNameStep::Use(name) && exists|suffix: Seq<char>|
            clock::is_seconds_time(suffix) && name@ == numbered_name(folder_name@, suffix))),
{
    if taken {
        unique_name_step(folder_name, attempt + 1)
    } else {
        UniqueNameStep::Use(candidate(folder_name, attempt))
    }
}

/// The first numbered candidate from `attempt` on that is not taken, or none
/// when every one up to the last numbered attempt is taken.
pub open spec fn first_free_from(
    folder_name: Seq<char>,
    taken: spec_fn(Seq<char>) -> bool,
    attempt: nat,
) -> Option<Seq<char>>
    decreases MAX_UNIQUE_ATTEMPTS + 1 - attempt,
{
    if attempt > MAX_UNIQUE_ATTEMPTS || attempt < 1 {
        None
    } else if !taken(candidate_name(folder_name, attempt)) {
        Some(candidate_name(folder_name, attempt))
    } else {
        first_free_from(folder_name, taken, attempt + 1)
    }
}

/// The search settles on the first free candidate: when the probes of the
/// attempts before `attempt` all found their names taken and the probe of
/// `attempt` found its name free, which is when `after_probe` answers `Use`,
/// the name used is the first candidate that is not taken.
pub proof fn lemma_search_finds_first_free(
    folder_name: Seq<char>,
    taken: spec_fn(Seq<char>) -> bool,
    attempt: nat,
)
    requires
        1 <= attempt <= MAX_UNIQUE_ATTEMPTS,
        forall|b: nat| 1 <= b < attempt ==> #[trigger] taken(candidate_name(folder_name, b)),
        !taken(candidate_name(folder_name, attempt)),
    ensures
        first_free_from(folder_name, taken, 1) == Some(candidate_name(folder_name, attempt)),
{
    lemma_first_free_from_below(folder_name, taken, attempt, 1);
}

proof fn lemma_first_free_from_below(
    folder_name: Seq<char>,
    taken: spec_fn(Seq<char>) -> bool,
    attempt: nat,
    from: nat,
)
    requires
        1 <= from <= attempt <= MAX_UNIQUE_ATTEMPTS,
        forall|b: nat| 1 <= b < attempt ==> #[trigger] taken(candidate_name(folder_name, b)),
        !taken(candidate_name(folder_name, attempt)),
    ensures
        first_free_from(folder_name, taken, from) == Some(candidate_name(folder_name, attempt)),
    decreases attempt - from,
{
    if from < attempt {
        assert(taken(candidate_name(folder_name, from)));
        lemma_first_free_from_below(folder_name, taken, attempt, from + 1);
    }
}

/// The name the search settles on is free, and every candidate before it is
/// taken.
pub proof fn lemma_first_free_is_free(
    folder_name: Seq<char>,
    taken: spec_fn(Seq<char>) -> bool,
    from: nat,
)
    requires
        1 <= from,
        first_free_from(folder_name, taken, from) is Some,
    ensures
        !taken(first_free_from(folder_name, taken, from)->0),
        exists|a: nat|
            from <= a <= MAX_UNIQUE_ATTEMPTS && first_free_from(folder_name, taken, from)->0
                == #[trigger] candidate_name(folder_name, a) && forall|b: nat|
                from <= b < a ==> #[trigger] taken(candidate_name(folder_name, b)),
    decreases MAX_UNIQUE_ATTEMPTS + 1 - from,
{
    if taken(candidate_name(folder_name, from)) {
        lemma_first_free_is_free(folder_name, taken, from + 1);
        let a = choose|a: nat|
            from + 1 <= a <= MAX_UNIQUE_ATTEMPTS && first_free_from(folder_name, taken, from + 1)->0
                == #[trigger] candidate_name(folder_name, a) && forall|b: nat|
                from + 1 <= b < a ==> #[trigger] taken(candidate_name(folder_name, b));
        assert(forall|b: nat| from <= b < a ==> #[trigger] taken(candidate_name(folder_name, b)));
    } else {
        assert(forall|b: nat| from <= b < from ==> #[trigger] taken(candidate_name(folder_name, b)));
    }
}

/// The name used once every numbered name is taken: `<folder_name>_<suffix>`,
/// where the suffix is a timestamp that includes seconds.
pub fn fallback_unique_name(folder_name: &str, suffix: &str) -> (name: String)
    ensures
        name@ == numbered_name(folder_name@, suffix@),
{
    let mut name = folder_name.to_owned();
    string_push(&mut name, '_');
    name.append(suffix);
    name
}

/// Different attempts propose different names, so no two probes of one search
/// can land on the same folder.
pub proof fn lemma_candidates_distinct(folder_name: Seq<char>, a: nat, b: nat)
    requires
        1 <= a,
        1 <= b,
        a != b,
    ensures
        candidate_name(folder_name, a) != candidate_name(folder_name, b),
{
    text::lemma_decimal_len(a);
    text::lemma_decimal_len(b);
    if a >= 2 && b >= 2 {
        let na = candidate_name(folder_name, a);
        let nb = candidate_name(folder_name, b);
        let start = folder_name.len() as int + 1;
        if na == nb {
            assert(na.subrange(start, na.len() as int) =~= text::decimal(a));
            assert(nb.subrange(start, nb.len() as int) =~= text::decimal(b));
            text::lemma_decimal_injective(a, b);
        }
    } else if a >= 2 {
        assert(candidate_name(folder_name, a).len() != candidate_name(folder_name, b).len());
    } else {
        assert(candidate_name(folder_name, a).len() != candidate_name(folder_name, b).len());
    }
}

/// Every proposed name starts with the folder name, so the folder stays
/// recognisable whatever suffix it gets.
pub proof fn lemma_candidate_extends_folder_name(folder_name: Seq<char>, attempt: nat)
    ensures
        candidate_name(folder_name, attempt).len() >= folder_name.len(),
        candidate_name(folder_name, attempt).subrange(0, folder_name.len() as int)
            == folder_name,
{
    assert(candidate_name(folder_name, attempt).subrange(0, folder_name.len() as int)
        =~= folder_name);
}

} // verus!
