//! The pointer sensor: applies the hysteresis policy to one sample per tick.

use vstd::prelude::*;

use crate::hysteresis::HysteresisThresholds;

verus! {

/// The sensor's own view of the visibility flag.
///
/// `enabled` records whether the pointer-query capability was acquired at
/// start. A disabled sensor never changes the flag, which then stays `false`.
#[derive(Clone, Copy, Debug, PartialEq, Eq, Structural)]
pub struct PointerSensor {
    pub thresholds: HysteresisThresholds,
    pub visible: bool,
    pub enabled: bool,
}

impl PointerSensor {
    /// A disabled sensor holds the flag down.
    pub open spec fn wf(&self) -> bool {
        self.thresholds.wf() && (!self.enabled ==> !self.visible)
    }

    /// The flag after one tick. A failed query (`None`) leaves it as it was,
    /// as does every tick of a disabled sensor.
    pub open spec fn step(&self, sample: Option<i32>) -> bool {
        match sample {
            Some(y) => if self.enabled {
                self.thresholds.next_visible(self.visible, y as int)
            } else {
                self.visible
            },
            None => self.visible,
        }
    }

    /// The sensor after the first `n` ticks of `samples`.
    pub open spec fn after(&self, samples: Seq<Option<i32>>, n: nat) -> PointerSensor
        decreases n,
    {
        if n == 0 {
            *self
        } else {
            let s = self.after(samples, (n - 1) as nat);
            PointerSensor { visible: s.step(samples[n - 1]), ..s }
        }
    }

    /// A sensor with the flag down. `capability_available` says whether the
    /// pointer query could be set up; without it the sensor is disabled for
    /// good.
    pub fn new(thresholds: HysteresisThresholds, capability_available: bool) -> (r: PointerSensor)
        requires
            thresholds.wf(),
        ensures
            r.wf(),
            r.thresholds == thresholds,
            !r.visible,
            r.enabled == capability_available,
    {
        PointerSensor { thresholds, visible: false, enabled: capability_available }
    }

    /// One tick with the outcome of the pointer query; returns the flag to
    /// publish.
    pub fn tick(&mut self, sample: Option<i32>) -> (flag: bool)
        requires
            old(self).wf(),
        ensures
            final(self).wf(),
            *final(self) == (PointerSensor { visible: old(self).step(sample), ..*old(self) }),
            flag == final(self).visible,
    {
        match sample {
            Some(y) => {
                if self.enabled {
                    self.visible = self.thresholds.decide(self.visible, y);
                }
            },
            None => {},
        }
        self.visible
    }
}

/// A sensor whose setup failed keeps the flag down for any run of ticks.
pub proof fn lemma_disabled_sensor_stays_hidden(
    s: PointerSensor,
    samples: Seq<Option<i32>>,
    n: nat,
)
    requires
        s.wf(),
        !s.enabled,
    ensures
        !s.after(samples, n).visible,
        !s.after(samples, n).enabled,
    decreases n,
{
    if n > 0 {
        lemma_disabled_sensor_stays_hidden(s, samples, (n - 1) as nat);
    }
}

} // verus!
