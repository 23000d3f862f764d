use vstd::prelude::*;

use crate::casefold::{eq_ignore_case, lemma_eq_ignore_case_respects, str_eq_ignore_case};
use crate::errors::FwError;

verus! {

/// The index of the first chain at or after `from` whose name equals `name`
/// up to ASCII case, if any.
pub open spec fn first_match_from(chains: Seq<Seq<char>>, name: Seq<char>, from: int) -> Option<
    int,
>
    decreases chains.len() - from,
{
    if from < 0 || from >= chains.len() {
        None
    } else if eq_ignore_case(chains[from], name) {
        Some(from)
    } else {
        first_match_from(chains, name, from + 1)
    }
}

/// The outcome of resolving a requested chain name against a snapshot of the
/// table's chain list: the index of the first case-insensitive match.
pub open spec fn resolve_spec(chains: Seq<Seq<char>>, name: Seq<char>) -> Option<int> {
    first_match_from(chains, name, 0)
}

/// What it means for `r` to be the first case-insensitive match of `name`
/// within `chains`.
pub open spec fn is_first_match(chains: Seq<Seq<char>>, name: Seq<char>, r: Option<int>) -> bool {
    match r {
        Some(i) => {
            &&& 0 <= i < chains.len()
            &&& eq_ignore_case(chains[i], name)
            &&& forall|j: int| 0 <= j < i ==> !eq_ignore_case(#[trigger] chains[j], name)
        },
        None => forall|j: int|
            0 <= j < chains.len() ==> !eq_ignore_case(#[trigger] chains[j], name),
    }
}

proof fn lemma_first_match_from_characterization(chains: Seq<Seq<char>>, name: Seq<char>, from: int)
    requires
        0 <= from <= chains.len(),
    ensures
        match first_match_from(chains, name, from) {
            Some(i) => {
                &&& from <= i < chains.len()
                &&& eq_ignore_case(chains[i], name)
                &&& forall|j: int| from <= j < i ==> !eq_ignore_case(#[trigger] chains[j], name)
            },
            None => forall|j: int|
                from <= j < chains.len() ==> !eq_ignore_case(#[trigger] chains[j], name),
        },
    decreases chains.len() - from,
{
    if from < chains.len() && !eq_ignore_case(chains[from], name) {
        lemma_first_match_from_characterization(chains, name, from + 1);
    }
}

/// Resolution returns exactly the first case-insensitive match.
pub proof fn lemma_resolve_characterization(chains: Seq<Seq<char>>, name: Seq<char>)
    ensures
        is_first_match(chains, name, resolve_spec(chains, name)),
{
    lemma_first_match_from_characterization(chains, name, 0);
}

/// Listing a chain is idempotent: against one snapshot of the chain list (no
/// intervening mutation), any two resolutions of the same requested name find
/// the same chain, and hence the same rule sequence is read from it.
pub proof fn lemma_resolution_unique(
    chains: Seq<Seq<char>>,
    name: Seq<char>,
    r1: Option<int>,
    r2: Option<int>,
)
    requires
        is_first_match(chains, name, r1),
        is_first_match(chains, name, r2),
    ensures
        r1 == r2,
{
    match (r1, r2) {
        (Some(i1), Some(i2)) => {
            if i1 < i2 {
                assert(!eq_ignore_case(chains[i1], name));
            }
            if i2 < i1 {
                assert(!eq_ignore_case(chains[i2], name));
            }
        },
        (Some(i1), None) => {
            assert(!eq_ignore_case(chains[i1], name));
        },
        (None, Some(i2)) => {
            assert(!eq_ignore_case(chains[i2], name));
        },
        (None, None) => {},
    }
}

proof fn lemma_first_match_from_case_insensitive(
    chains: Seq<Seq<char>>,
    n1: Seq<char>,
    n2: Seq<char>,
    from: int,
)
    requires
        eq_ignore_case(n1, n2),
    ensures
        first_match_from(chains, n1, from) == first_match_from(chains, n2, from),
    decreases chains.len() - from,
{
    if 0 <= from < chains.len() {
        lemma_eq_ignore_case_respects(chains[from], n1, n2);
        if !eq_ignore_case(chains[from], n1) {
            lemma_first_match_from_case_insensitive(chains, n1, n2, from + 1);
        }
    }
}

/// Chain resolution is case-insensitive: two requested names that are equal
/// up to ASCII case resolve to the same chain of any snapshot.
pub proof fn lemma_resolve_case_insensitive(chains: Seq<Seq<char>>, n1: Seq<char>, n2: Seq<char>)
    requires
        eq_ignore_case(n1, n2),
    ensures
        resolve_spec(chains, n1) == resolve_spec(chains, n2),
{
    lemma_first_match_from_case_insensitive(chains, n1, n2, 0);
}

/// Finds the canonical chain name: scans the listed chains, in the
/// subsystem's order, for the first one equal to the requested name up to
/// ASCII case. NotFound exactly when no chain matches.
pub fn resolve_chain(chains: &Vec<String>, requested: &str) -> (r: Result<String, FwError>)
    ensures
        match resolve_spec(chains.deep_view(), requested@) {
            Some(i) => r matches Ok(c) && c@ == chains.deep_view()[i],
            None => r matches Err(e) && e == FwError::NotFound,
        },
{
    let ghost cv = chains.deep_view();
    let n = chains.len();
    let mut i: usize = 0;
    while i < n
        invariant
            n == chains@.len(),
            cv == chains.deep_view(),
            cv.len() == n,
            i <= n,
            forall|j: int| 0 <= j < i ==> !eq_ignore_case(#[trigger] cv[j], requested@),
        decreases n - i,
    {
        assert(cv[i as int] == chains@[i as int]@);
        if str_eq_ignore_case(chains[i].as_str(), requested) {
            proof {
                lemma_resolve_characterization(cv, requested@);
                lemma_resolution_unique(
                    cv,
                    requested@,
                    resolve_spec(cv, requested@),
                    Some(i as int),
                );
            }
            return Ok(chains[i].clone());
        }
        i = i + 1;
    }
    proof {
        lemma_resolve_characterization(cv, requested@);
        lemma_resolution_unique(cv, requested@, resolve_spec(cv, requested@), None);
    }
    Err(FwError::NotFound)
}

} // verus!
