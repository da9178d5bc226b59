//! The visibility synchronizer: turns changes of the flag into directives for
//! the window surface.

use vstd::prelude::*;

verus! {

/// An instruction for the window surface.
#[derive(Clone, Copy, Debug, PartialEq, Eq, Structural)]
pub enum Directive {
    /// Bring the panel's window to the front.
    Activate,
    /// Give the window the configured panel size.
    ResizeToPanel,
    /// Shrink the window to a near-zero footprint.
    ResizeToMinimal,
    /// Ask the visual layer to redraw.
    RequestRedraw,
}

/// The directives that show the panel.
pub open spec fn show_directives() -> Seq<Directive> {
    seq![Directive::Activate, Directive::ResizeToPanel, Directive::RequestRedraw]
}

/// The directives that hide the panel.
pub open spec fn hide_directives() -> Seq<Directive> {
    seq![Directive::ResizeToMinimal, Directive::RequestRedraw]
}

/// What one tick issues when the flag was `previous` and is now `current`:
/// nothing without a change, the show set on a rise, the hide set on a fall.
pub open spec fn directives_for(previous: bool, current: bool) -> Seq<Directive> {
    if previous == current {
        seq![]
    } else if current {
        show_directives()
    } else {
        hide_directives()
    }
}

/// The flag value seen just before tick `i` of `flags`, by a synchronizer that
/// started with `initial`.
pub open spec fn seen_before(initial: bool, flags: Seq<bool>, i: int) -> bool {
    if i == 0 {
        initial
    } else {
        flags[i - 1]
    }
}

/// What tick `i` of `flags` issues, for a synchronizer that started with
/// `initial`.
pub open spec fn tick_directives(initial: bool, flags: Seq<bool>, i: int) -> Seq<Directive> {
    directives_for(seen_before(initial, flags, i), flags[i])
}

/// The consumer side of the flag: remembers the last value it saw.
///
/// Two states, hidden (`false`) and shown (`true`); it starts hidden.
#[derive(Clone, Copy, Debug, PartialEq, Eq, Structural)]
pub struct Synchronizer {
    pub last_visible: bool,
}

impl Synchronizer {
    /// A synchronizer in the hidden state.
    pub fn new() -> (r: Synchronizer)
        ensures
            !r.last_visible,
    {
        Synchronizer { last_visible: false }
    }

    /// One tick that reads `observed` from the flag; returns the directives
    /// to issue, in order.
    pub fn tick(&mut self, observed: bool) -> (r: Vec<Directive>)
        ensures
            r@ == directives_for(old(self).last_visible, observed),
            final(self).last_visible == observed,
    {
        let mut r: Vec<Directive> = Vec::new();
        if observed != self.last_visible {
            if observed {
                r.push(Directive::Activate);
                r.push(Directive::ResizeToPanel);
            } else {
                r.push(Directive::ResizeToMinimal);
            }
            r.push(Directive::RequestRedraw);
            self.last_visible = observed;
        }
        proof {
            if observed != old(self).last_visible {
                if observed {
                    assert(r@ =~= show_directives());
                } else {
                    assert(r@ =~= hide_directives());
                }
            } else {
                assert(r@ =~= Seq::<Directive>::empty());
            }
        }
        r
    }

    /// Ticks over `flags` in order; returns what each tick issued.
    pub fn replay(&mut self, flags: &Vec<bool>) -> (r: Vec<Vec<Directive>>)
        ensures
            r@.len() == flags@.len(),
            forall|i: int|
                0 <= i < r@.len() ==> r@[i]@ == tick_directives(
                    old(self).last_visible,
                    flags@,
                    i,
                ),
            final(self).last_visible == seen_before(
                old(self).last_visible,
                flags@,
                flags@.len() as int,
            ),
    {
        let ghost initial = self.last_visible;
        let mut r: Vec<Vec<Directive>> = Vec::new();
        let mut i: usize = 0;
        while i < flags.len()
            invariant
                i <= flags@.len(),
                r@.len() == i,
                self.last_visible == seen_before(initial, flags@, i as int),
                forall|k: int|
                    0 <= k < i ==> r@[k]@ == tick_directives(initial, flags@, k),
            decreases flags@.len() - i,
        {
            let d = self.tick(flags[i]);
            r.push(d);
            i = i + 1;
        }
        r
    }
}

/// After a tick that already reflects the flag's value, further ticks that
/// see the same value issue nothing.
pub proof fn lemma_unchanged_flag_issues_nothing(initial: bool, flags: Seq<bool>, i: int)
    requires
        1 <= i < flags.len(),
        forall|k: int| 0 <= k < flags.len() ==> #[trigger] flags[k] == flags[0],
    ensures
        tick_directives(initial, flags, i).len() == 0,
{
    assert(flags[i - 1] == flags[0]);
}

/// Each tick issues exactly one set of directives on an edge and none
/// otherwise: the show set when the flag rises, the hide set when it falls.
pub proof fn lemma_one_set_per_edge(initial: bool, flags: Seq<bool>, i: int)
    requires
        0 <= i < flags.len(),
    ensures
        (tick_directives(initial, flags, i).len() > 0) == (flags[i] != seen_before(
            initial,
            flags,
            i,
        )),
        flags[i] && !seen_before(initial, flags, i) ==> tick_directives(initial, flags, i)
            == show_directives(),
        !flags[i] && seen_before(initial, flags, i) ==> tick_directives(initial, flags, i)
            == hide_directives(),
{
}

/// Across ticks that issue nothing, the flag keeps the value it had at
/// `start`.
proof fn lemma_quiet_ticks_keep_flag(initial: bool, flags: Seq<bool>, start: int, end: int)
    requires
        0 <= start <= end < flags.len(),
        forall|k: int| start < k <= end ==> #[trigger] tick_directives(initial, flags, k).len() == 0,
    ensures
        flags[end] == flags[start],
    decreases end - start,
{
    if end > start {
        lemma_quiet_ticks_keep_flag(initial, flags, start, end - 1);
        assert(tick_directives(initial, flags, end).len() == 0);
        assert(show_directives().len() == 3);
        assert(hide_directives().len() == 2);
    }
}

/// Show and hide sets alternate: the next set issued after a tick that
/// issued one is the other kind, however the flag was sampled in between.
pub proof fn lemma_sets_alternate(initial: bool, flags: Seq<bool>, i: int, j: int)
    requires
        0 <= i < j < flags.len(),
        tick_directives(initial, flags, i).len() > 0,
        tick_directives(initial, flags, j).len() > 0,
        forall|k: int| i < k < j ==> #[trigger] tick_directives(initial, flags, k).len() == 0,
    ensures
        tick_directives(initial, flags, i) != tick_directives(initial, flags, j),
        tick_directives(initial, flags, j) == directives_for(flags[i], flags[j]),
{
    lemma_quiet_ticks_keep_flag(initial, flags, i, j - 1);
    assert(show_directives().len() == 3);
    assert(hide_directives().len() == 2);
}

/// Starting hidden, the first set that a synchronizer issues is the show set.
pub proof fn lemma_first_set_shows(flags: Seq<bool>, j: int)
    requires
        0 <= j < flags.len(),
        tick_directives(false, flags, j).len() > 0,
        forall|k: int| 0 <= k < j ==> #[trigger] tick_directives(false, flags, k).len() == 0,
    ensures
        tick_directives(false, flags, j) == show_directives(),
{
    assert(show_directives().len() == 3);
    assert(hide_directives().len() == 2);
    if j > 0 {
        assert(tick_directives(false, flags, 0).len() == 0);
        lemma_quiet_ticks_keep_flag(false, flags, 0, j - 1);
    }
}

/// A flag that never rises makes a hidden synchronizer issue nothing at all.
pub proof fn lemma_flag_down_issues_nothing(flags: Seq<bool>, i: int)
    requires
        0 <= i < flags.len(),
        forall|k: int| 0 <= k < flags.len() ==> !flags[k],
    ensures
        tick_directives(false, flags, i).len() == 0,
{
    if i > 0 {
        assert(!flags[i - 1]);
    }
}

} // verus!
