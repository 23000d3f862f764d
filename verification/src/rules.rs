use vstd::prelude::*;

use crate::errors::FwError;

verus! {

/// Position-addressed rule lookup: returns exactly the rule text at the
/// 0-based `position` of the chain's rule listing, and OutOfRange if and only
/// if the position is at or past the end. Never an empty or made-up result.
pub fn rule_at(rules: &Vec<String>, position: usize) -> (r: Result<String, FwError>)
    ensures
        position < rules@.len() ==> (r matches Ok(t) && t@ == rules@[position as int]@),
        position >= rules@.len() ==> (r matches Err(e) && e == FwError::OutOfRange),
{
    if position < rules.len() {
        Ok(rules[position].clone())
    } else {
        Err(FwError::OutOfRange)
    }
}

/// The subsystem deletes by content, not by index: the rule listing after
/// deleting the first occurrence of `text`, unchanged when no rule matches.
pub open spec fn remove_first(rules: Seq<Seq<char>>, text: Seq<char>) -> Seq<Seq<char>>
    decreases rules.len(),
{
    if rules.len() == 0 {
        rules
    } else if rules[0] == text {
        rules.drop_first()
    } else {
        seq![rules[0]] + remove_first(rules.drop_first(), text)
    }
}

/// Delete-by-position correctness: when the text at `position` occurs nowhere
/// earlier in the chain, deleting by the re-derived text at that position
/// removes exactly the rule at `position`, leaving the earlier and later
/// rules in their order.
pub proof fn lemma_delete_by_position(rules: Seq<Seq<char>>, position: int)
    requires
        0 <= position < rules.len(),
        forall|j: int| 0 <= j < position ==> rules[j] != rules[position],
    ensures
        remove_first(rules, rules[position]) == rules.remove(position),
    decreases position,
{
    let text = rules[position];
    if position == 0 {
        assert(rules.drop_first() =~= rules.remove(0));
    } else {
        assert(rules[0] != text);
        let tail = rules.drop_first();
        assert(tail[position - 1] == text);
        assert forall|j: int| 0 <= j < position - 1 implies #[trigger] tail[j] != tail[position
            - 1] by {
            assert(tail[j] == rules[j + 1]);
        }
        lemma_delete_by_position(tail, position - 1);
        assert(remove_first(rules, text) == seq![rules[0]] + tail.remove(position - 1));
        assert(seq![rules[0]] + tail.remove(position - 1) =~= rules.remove(position));
    }
}

} // verus!
