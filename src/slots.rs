//! The slot counter as plain values: one change at a time, and the laws that
//! hold of any sequence of changes.
use vstd::prelude::*;

verus! {

/// One change to the number of available slots.
#[derive(Clone, Copy, Debug, PartialEq, Eq, Structural)]
pub enum SlotChange {
    /// Take this many slots, if that many are available.
    Block(usize),
    /// Give back this many slots.
    Release(usize),
}

/// The count after `change`, or `None` where the change is refused (a block
/// of more slots than are available). A release never exceeds `usize::MAX`:
/// it stops there.
pub open spec fn next_count_spec(current: nat, change: SlotChange) -> Option<nat> {
    match change {
        SlotChange::Block(amt) => if amt <= current {
            Some((current - amt) as nat)
        } else {
            None
        },
        SlotChange::Release(amt) => if current + amt <= usize::MAX {
            Some((current + amt) as nat)
        } else {
            Some(usize::MAX as nat)
        },
    }
}

/// Computes the count that follows `current` after `change`: `None` where a
/// block asks for more slots than `current` holds, else the new count. A
/// release saturates at `usize::MAX` rather than wrapping.
pub fn next_count(current: usize, change: SlotChange) -> (r: Option<usize>)
    ensures
        r matches Some(v) ==> next_count_spec(current as nat, change) == Some(v as nat),
        r is None <==> next_count_spec(current as nat, change) is None,
{
    match change {
        SlotChange::Block(amt) => current.checked_sub(amt),
        SlotChange::Release(amt) => Some(current.saturating_add(amt)),
    }
}

/// The count after `change`, where a refused change leaves it as it was.
pub open spec fn step(current: nat, change: SlotChange) -> nat {
    match next_count_spec(current, change) {
        Some(v) => v,
        None => current,
    }
}

/// The count after applying `changes`, in order, to `start`.
pub open spec fn run(start: nat, changes: Seq<SlotChange>) -> nat
    decreases changes.len(),
{
    if changes.len() == 0 {
        start
    } else {
        step(run(start, changes.drop_last()), changes.last())
    }
}

/// The slots that the accepted blocks of `changes` took, from `start` on.
pub open spec fn blocked(start: nat, changes: Seq<SlotChange>) -> nat
    decreases changes.len(),
{
    if changes.len() == 0 {
        0
    } else {
        let before = run(start, changes.drop_last());
        let taken = match changes.last() {
            SlotChange::Block(amt) => if amt <= before {
                amt as nat
            } else {
                0
            },
            SlotChange::Release(_) => 0,
        };
        blocked(start, changes.drop_last()) + taken
    }
}

/// The slots that the releases of `changes` gave back.
pub open spec fn released(changes: Seq<SlotChange>) -> nat
    decreases changes.len(),
{
    if changes.len() == 0 {
        0
    } else {
        let given = match changes.last() {
            SlotChange::Release(amt) => amt as nat,
            SlotChange::Block(_) => 0,
        };
        released(changes.drop_last()) + given
    }
}

/// A block of at most the count a queue was made with, as its first change,
/// is accepted and leaves the count lowered by exactly that amount.
pub proof fn lemma_first_block_accepted(count: usize, amt: usize)
    requires
        amt <= count,
    ensures
        next_count_spec(count as nat, SlotChange::Block(amt)) == Some((count - amt) as nat),
        run(count as nat, seq![SlotChange::Block(amt)]) == count - amt,
{
    reveal_with_fuel(run, 3);
    let changes = seq![SlotChange::Block(amt)];
    assert(changes.drop_last() =~= Seq::<SlotChange>::empty());
}

/// A block of more than the count is refused and changes nothing, however
/// often it is repeated.
pub proof fn lemma_refused_block_changes_nothing(current: nat, amt: usize, times: nat)
    requires
        current < amt,
    ensures
        next_count_spec(current, SlotChange::Block(amt)) is None,
        run(current, Seq::new(times, |i: int| SlotChange::Block(amt))) == current,
        blocked(current, Seq::new(times, |i: int| SlotChange::Block(amt))) == 0,
    decreases times,
{
    let changes = Seq::new(times, |i: int| SlotChange::Block(amt));
    if times > 0 {
        assert(changes.drop_last() =~= Seq::new((times - 1) as nat, |i: int| SlotChange::Block(amt)));
        lemma_refused_block_changes_nothing(current, amt, (times - 1) as nat);
    }
}

/// A release raises the count by exactly its amount, from any count, as
/// long as the sum fits in a `usize`.
pub proof fn lemma_release_adds(current: nat, amt: usize)
    requires
        current + amt <= usize::MAX,
    ensures
        next_count_spec(current, SlotChange::Release(amt)) == Some((current + amt) as nat),
        step(current, SlotChange::Release(amt)) == current + amt,
{
}

/// Over any sequence of blocks and releases, as the counter orders them, the
/// final count is the start plus all that was released minus all that was
/// blocked with success: no change is lost or counted twice. The sum of the
/// start and the releases must fit in a `usize`, below which no release
/// saturates.
pub proof fn lemma_count_balance(start: nat, changes: Seq<SlotChange>)
    requires
        start + released(changes) <= usize::MAX,
    ensures
        run(start, changes) + blocked(start, changes) == start + released(changes),
    decreases changes.len(),
{
    if changes.len() > 0 {
        let prefix = changes.drop_last();
        lemma_count_balance(start, prefix);
    }
}

/// On the count: a block of one followed by a release of one (what a guard
/// does from its request to its drop) leaves the count where it was, and a
/// block of one refused on the empty count is accepted after a release of
/// one.
pub proof fn lemma_slot_round_trip(current: nat)
    requires
        1 <= current <= usize::MAX,
    ensures
        run(current, seq![SlotChange::Block(1), SlotChange::Release(1)]) == current,
        next_count_spec(0, SlotChange::Block(1)) is None,
        next_count_spec(step(0, SlotChange::Release(1)), SlotChange::Block(1)) == Some(0nat),
{
    reveal_with_fuel(run, 3);
    let changes = seq![SlotChange::Block(1), SlotChange::Release(1)];
    assert(changes.drop_last() =~= seq![SlotChange::Block(1)]);
    assert(changes.drop_last().drop_last() =~= Seq::<SlotChange>::empty());
}

/// On the count: after a block of one that no release of one answers (a
/// guard held for good), whatever changes follow, the count never exceeds
/// what was left after the block plus what those changes release.
pub proof fn lemma_held_slot_not_returned(count: nat, changes: Seq<SlotChange>)
    requires
        1 <= count,
        (count - 1) + released(changes) <= usize::MAX,
    ensures
        step(count, SlotChange::Block(1)) == count - 1,
        run((count - 1) as nat, changes) <= (count - 1) + released(changes),
{
    lemma_count_balance((count - 1) as nat, changes);
}

/// On the count: a release of one that a waiter takes at once with a block
/// of one (a slot handed over) leaves the count unchanged; a release of one
/// that nobody takes raises it by one.
pub proof fn lemma_handover_keeps_count(current: nat)
    requires
        current < usize::MAX,
    ensures
        run(current, seq![SlotChange::Release(1), SlotChange::Block(1)]) == current,
        run(current, seq![SlotChange::Release(1)]) == current + 1,
{
    reveal_with_fuel(run, 3);
    let changes = seq![SlotChange::Release(1), SlotChange::Block(1)];
    assert(changes.drop_last() =~= seq![SlotChange::Release(1)]);
    assert(changes.drop_last().drop_last() =~= Seq::<SlotChange>::empty());
}

} // verus!
