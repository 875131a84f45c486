use vstd::prelude::*;

use crate::types::{Action, ActionItem, record_wf};

verus! {

/// Two records are mergeable when they are consecutive turns or consecutive
/// moves; no other pair ever merges.
pub open spec fn mergeable(first: ActionItem, second: ActionItem) -> bool {
    ||| (first.0 == Action::Turn && second.0 == Action::Turn)
    ||| (first.0 == Action::Move && second.0 == Action::Move)
}

/// The append-with-compaction rule. A turn following a turn replaces it
/// (only the latest heading of a run is kept); a move following a move
/// accumulates the step counts into one entry; anything else is appended
/// as a new entry.
pub open spec fn spec_append(s: Seq<ActionItem>, a: ActionItem) -> Seq<ActionItem> {
    if s.len() > 0 && s.last().0 == Action::Turn && a.0 == Action::Turn {
        s.drop_last().push(a)
    } else if s.len() > 0 && s.last().0 == Action::Move && a.0 == Action::Move {
        s.drop_last().push(ActionItem(Action::Move, (s.last().1 + a.1) as u32))
    } else {
        s.push(a)
    }
}

/// Whether appending `a` to `s` stays within the machine's integer range:
/// only the move-merge case adds magnitudes, and its sum must fit in `u32`.
pub open spec fn merge_fits(s: Seq<ActionItem>, a: ActionItem) -> bool {
    (s.len() > 0 && s.last().0 == Action::Move && a.0 == Action::Move) ==> s.last().1 + a.1
        <= u32::MAX
}

/// A journal is compacted when no two neighbouring entries could still
/// merge: the append rule never leaves a turn beside a turn or a move
/// beside a move.
pub open spec fn compacted(s: Seq<ActionItem>) -> bool {
    forall|i: int| 0 <= i && i + 1 < s.len() ==> !(#[trigger] mergeable(s[i], s[i + 1]))
}

/// The journal invariant: every entry is well formed and the sequence is
/// compacted.
pub open spec fn journal_wf(s: Seq<ActionItem>) -> bool {
    &&& forall|i: int| 0 <= i < s.len() ==> record_wf(#[trigger] s[i])
    &&& compacted(s)
}

/// The journal a sequence of records produces when appended one by one,
/// oldest first, to an empty journal.
pub open spec fn replay(entries: Seq<ActionItem>) -> Seq<ActionItem>
    decreases entries.len(),
{
    if entries.len() == 0 {
        Seq::empty()
    } else {
        spec_append(replay(entries.drop_last()), entries.last())
    }
}

/// A compacted journal is a fixed point of replay: appending its entries one
/// by one to an empty journal reproduces it exactly. A journal reloaded from
/// durable storage therefore carries the same information as the appends
/// that built it.
pub proof fn lemma_replay_compacted(entries: Seq<ActionItem>)
    requires
        compacted(entries),
    ensures
        replay(entries) == entries,
    decreases entries.len(),
{
    if entries.len() > 0 {
        let prefix = entries.drop_last();
        assert forall|i: int| 0 <= i && i + 1 < prefix.len() implies !(#[trigger] mergeable(
            prefix[i],
            prefix[i + 1],
        )) by {
            assert(!mergeable(entries[i], entries[i + 1]));
        }
        lemma_replay_compacted(prefix);
        if prefix.len() > 0 {
            assert(!mergeable(entries[entries.len() - 2], entries[entries.len() - 1]));
        }
        assert(spec_append(prefix, entries.last()) =~= entries);
    } else {
        assert(replay(entries) =~= entries);
    }
}

/// Decides the journal invariant at run time: whether every entry is well
/// formed and no two neighbours could still merge. Lets a host shell
/// validate journal contents reloaded from durable storage before handing
/// them back to the proxy.
pub fn journal_is_wf(journal: &Vec<ActionItem>) -> (r: bool)
    ensures
        r == journal_wf(journal@),
{
    let n = journal.len();
    let mut i: usize = 0;
    while i < n
        invariant
            i <= n,
            n == journal@.len(),
            forall|j: int| 0 <= j < i ==> record_wf(#[trigger] journal@[j]),
            forall|j: int|
                0 <= j && j < i && j + 1 < n ==> !(#[trigger] mergeable(
                    journal@[j],
                    journal@[j + 1],
                )),
        decreases n - i,
    {
        let item = journal[i];
        let item_ok = match item.0 {
            Action::Turn => item.1 <= 7,
            Action::Harvest => item.1 == 1,
            Action::Upgrade => item.1 == 1,
            Action::Shoot => true,
            Action::Move => true,
        };
        if !item_ok {
            return false;
        }
        if i + 1 < n {
            let next = journal[i + 1];
            if (item.0 == Action::Turn && next.0 == Action::Turn) || (item.0 == Action::Move
                && next.0 == Action::Move) {
                proof {
                    assert(mergeable(journal@[i as int], journal@[i as int + 1]));
                }
                return false;
            }
        }
        i += 1;
    }
    true
}

/// The append rule preserves the journal invariant: a well-formed record
/// appended to a well-formed journal yields a well-formed journal.
pub proof fn lemma_append_preserves_wf(s: Seq<ActionItem>, a: ActionItem)
    requires
        journal_wf(s),
        record_wf(a),
    ensures
        journal_wf(spec_append(s, a)),
{
    let out = spec_append(s, a);
    if s.len() > 0 && mergeable(s.last(), a) {
        let merged = out.last();
        assert(merged.0 == a.0);
        assert(record_wf(merged));
        assert forall|i: int| 0 <= i && i + 1 < out.len() implies !(#[trigger] mergeable(
            out[i],
            out[i + 1],
        )) by {
            if i + 2 < s.len() {
                assert(!mergeable(s[i], s[i + 1]));
            } else {
                assert(out[i] == s[i]);
                assert(!mergeable(s[i], s[i + 1]));
                assert(s[i + 1] == s.last());
            }
        }
    } else {
        assert forall|i: int| 0 <= i && i + 1 < out.len() implies !(#[trigger] mergeable(
            out[i],
            out[i + 1],
        )) by {
            if i + 1 < s.len() {
                assert(!mergeable(s[i], s[i + 1]));
            }
        }
    }
}

} // verus!
