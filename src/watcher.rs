//! Window-size change detection: one decision per poll of the terminal size.

use vstd::prelude::*;

verus! {

/// Terminal dimensions in character cells.
#[derive(Clone, Copy, Debug, PartialEq, Eq, Structural)]
pub struct WindowSize {
    pub columns: u16,
    pub rows: u16,
}

impl WindowSize {
    /// A usable size has at least one row and one column.
    pub open spec fn wf(&self) -> bool {
        self.columns > 0 && self.rows > 0
    }
}

/// What a poll that observed `current` emits, given the last size seen.
pub open spec fn poll_emission(last: WindowSize, current: WindowSize) -> Option<WindowSize> {
    if current != last {
        Some(current)
    } else {
        None
    }
}

/// The sizes emitted by a run of polls starting from `last`.
pub open spec fn emissions(last: WindowSize, polls: Seq<WindowSize>) -> Seq<WindowSize>
    decreases polls.len(),
{
    if polls.len() == 0 {
        Seq::empty()
    } else {
        let rest = emissions(polls[0], polls.drop_first());
        match poll_emission(last, polls[0]) {
            Some(s) => seq![s] + rest,
            None => rest,
        }
    }
}

/// One poll of the size watcher: emits `current` exactly when it differs
/// from the last size seen, which it then becomes.
pub fn handle_screensize_change(last: &mut WindowSize, current: WindowSize) -> (r: Option<
    WindowSize,
>)
    ensures
        r == poll_emission(*old(last), current),
        r is Some <==> current != *old(last),
        *final(last) == current,
{
    if current != *last {
        *last = current;
        Some(current)
    } else {
        None
    }
}

/// Polls that keep observing the last size seen emit nothing.
pub proof fn lemma_identical_polls_emit_nothing(last: WindowSize, polls: Seq<WindowSize>)
    requires
        forall|i: int| 0 <= i < polls.len() ==> polls[i] == last,
    ensures
        emissions(last, polls).len() == 0,
    decreases polls.len(),
{
    if polls.len() > 0 {
        lemma_identical_polls_emit_nothing(last, polls.drop_first());
    }
}

/// A single poll emits one size exactly when it differs from the last one.
pub proof fn lemma_emits_iff_changed(last: WindowSize, current: WindowSize)
    ensures
        emissions(last, seq![current]) == (if current != last {
            seq![current]
        } else {
            Seq::<WindowSize>::empty()
        }),
{
    let polls = seq![current];
    assert(polls.drop_first() =~= Seq::<WindowSize>::empty());
    assert(emissions(current, polls.drop_first()) == Seq::<WindowSize>::empty());
    if current != last {
        assert(seq![current] + Seq::<WindowSize>::empty() =~= seq![current]);
    }
}

} // verus!
