//! Two-threshold hysteresis on the pointer's vertical position.

use vstd::prelude::*;

verus! {

/// Why a pair of margins cannot give thresholds.
#[derive(Clone, Copy, Debug, PartialEq, Eq, Structural)]
pub enum ThresholdError {
    /// The margin that shows the panel is not strictly smaller than the one
    /// that hides it, so there would be no dead zone.
    MarginsNotOrdered,
}

/// The two pointer heights that decide visibility.
///
/// `show_threshold` is the height at or past which a hidden panel appears;
/// a shown panel disappears only below `hide_threshold`. The first is always
/// strictly greater, which leaves a dead zone between them.
#[derive(Clone, Copy, Debug, PartialEq, Eq, Structural)]
pub struct HysteresisThresholds {
    pub show_threshold: i64,
    pub hide_threshold: i64,
}

impl HysteresisThresholds {
    /// There is a dead zone between the two thresholds.
    pub open spec fn wf(&self) -> bool {
        self.hide_threshold < self.show_threshold
    }

    /// The flag after one sample `y`, given the flag before it.
    pub open spec fn next_visible(&self, visible: bool, y: int) -> bool {
        if visible {
            y >= self.hide_threshold
        } else {
            y >= self.show_threshold
        }
    }

    /// The flag after the first `n` samples of `samples`, starting from
    /// `initial`.
    pub open spec fn after(&self, initial: bool, samples: Seq<i32>, n: nat) -> bool
        decreases n,
    {
        if n == 0 {
            initial
        } else {
            self.next_visible(self.after(initial, samples, (n - 1) as nat), samples[n - 1] as int)
        }
    }

    /// Thresholds for a screen of height `screen_height`: the panel shows
    /// within `near_margin` of the bottom edge and hides once the pointer is
    /// farther than `far_margin` from it.
    pub fn new(screen_height: i32, near_margin: i32, far_margin: i32) -> (r: Result<
        HysteresisThresholds,
        ThresholdError,
    >)
        ensures
            near_margin < far_margin <==> r is Ok,
            r is Ok ==> r->Ok_0.wf(),
            r is Ok ==> r->Ok_0.show_threshold == screen_height - near_margin,
            r is Ok ==> r->Ok_0.hide_threshold == screen_height - far_margin,
            r is Err ==> r->Err_0 == ThresholdError::MarginsNotOrdered,
    {
        if near_margin < far_margin {
            Ok(HysteresisThresholds {
                show_threshold: screen_height as i64 - near_margin as i64,
                hide_threshold: screen_height as i64 - far_margin as i64,
            })
        } else {
            Err(ThresholdError::MarginsNotOrdered)
        }
    }

    /// The flag after the pointer is seen at height `pointer_y`, given the
    /// flag before: a shown panel stays unless the pointer is below the hide
    /// threshold, a hidden one appears at or past the show threshold.
    pub fn decide(&self, visible: bool, pointer_y: i32) -> (r: bool)
        ensures
            r == self.next_visible(visible, pointer_y as int),
    {
        if visible {
            pointer_y as i64 >= self.hide_threshold
        } else {
            pointer_y as i64 >= self.show_threshold
        }
    }

    /// The flag after each sample in turn, starting from `initial`.
    pub fn trace(&self, initial: bool, samples: &Vec<i32>) -> (r: Vec<bool>)
        ensures
            r@.len() == samples@.len(),
            forall|i: int|
                0 <= i < r@.len() ==> r@[i] == self.after(initial, samples@, (i + 1) as nat),
    {
        let mut r: Vec<bool> = Vec::new();
        let mut visible = initial;
        let mut i: usize = 0;
        while i < samples.len()
            invariant
                i <= samples@.len(),
                r@.len() == i,
                visible == self.after(initial, samples@, i as nat),
                forall|k: int|
                    0 <= k < i ==> r@[k] == self.after(initial, samples@, (k + 1) as nat),
            decreases samples@.len() - i,
        {
            visible = self.decide(visible, samples[i]);
            r.push(visible);
            i = i + 1;
        }
        r
    }
}

/// Inside the dead zone a sample changes nothing: a hidden panel stays hidden
/// and a shown one stays shown.
pub proof fn lemma_dead_zone_keeps_state(t: HysteresisThresholds, visible: bool, y: int)
    requires
        t.wf(),
        t.hide_threshold < y < t.show_threshold,
    ensures
        t.next_visible(visible, y) == visible,
{
}

/// A run of samples that all fall inside the dead zone leaves the flag where
/// it started, after every prefix of the run.
pub proof fn lemma_dead_zone_run_keeps_state(
    t: HysteresisThresholds,
    initial: bool,
    samples: Seq<i32>,
    n: nat,
)
    requires
        t.wf(),
        n <= samples.len(),
        forall|i: int| 0 <= i < samples.len() ==> t.hide_threshold < #[trigger] samples[i] < t.show_threshold,
    ensures
        t.after(initial, samples, n) == initial,
    decreases n,
{
    if n > 0 {
        lemma_dead_zone_run_keeps_state(t, initial, samples, (n - 1) as nat);
    }
}

/// Starting hidden, the flag stays down as long as no sample has reached the
/// show threshold.
pub proof fn lemma_hidden_until_show_sample(t: HysteresisThresholds, samples: Seq<i32>, n: nat)
    requires
        n <= samples.len(),
        forall|i: int| 0 <= i < n ==> samples[i] < t.show_threshold,
    ensures
        !t.after(false, samples, n),
    decreases n,
{
    if n > 0 {
        lemma_hidden_until_show_sample(t, samples, (n - 1) as nat);
    }
}

/// Once shown after `start` samples, the flag stays up as long as no later
/// sample falls below the hide threshold.
pub proof fn lemma_shown_until_hide_sample(
    t: HysteresisThresholds,
    initial: bool,
    samples: Seq<i32>,
    start: nat,
    n: nat,
)
    requires
        start <= n <= samples.len(),
        t.after(initial, samples, start),
        forall|i: int| start <= i < n ==> samples[i] >= t.hide_threshold,
    ensures
        t.after(initial, samples, n),
    decreases n - start,
{
    if n > start {
        lemma_shown_until_hide_sample(t, initial, samples, start, (n - 1) as nat);
    }
}

/// Edge response. Starting hidden, with `up` the first sample at or past the
/// show threshold and `down` the first later sample below the hide threshold:
/// the flag is down before `up`, rises at `up`, stays up until `down`, and
/// falls at `down`.
pub proof fn lemma_edges_at_first_crossings(
    t: HysteresisThresholds,
    samples: Seq<i32>,
    up: nat,
    down: nat,
)
    requires
        up < down < samples.len(),
        samples[up as int] >= t.show_threshold,
        forall|i: int| 0 <= i < up ==> samples[i] < t.show_threshold,
        samples[down as int] < t.hide_threshold,
        forall|i: int| up < i < down ==> samples[i] >= t.hide_threshold,
    ensures
        forall|n: nat| n <= up ==> !t.after(false, samples, n),
        forall|n: nat| up < n <= down ==> t.after(false, samples, n),
        !t.after(false, samples, down + 1),
{
    assert forall|n: nat| n <= up implies !t.after(false, samples, n) by {
        lemma_hidden_until_show_sample(t, samples, n);
    }
    lemma_hidden_until_show_sample(t, samples, up);
    assert(t.after(false, samples, up + 1));
    assert forall|n: nat| up < n <= down implies t.after(false, samples, n) by {
        lemma_shown_until_hide_sample(t, false, samples, up + 1, n);
    }
    lemma_shown_until_hide_sample(t, false, samples, up + 1, down);
    assert(!t.after(false, samples, down + 1));
}

} // verus!
