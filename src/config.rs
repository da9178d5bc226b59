//! Policy settings of the controller: edge margins and polling cadences.

use vstd::prelude::*;

use crate::hysteresis::HysteresisThresholds;

verus! {

/// Distance from the bottom edge within which a hidden panel appears.
pub const NEAR_EDGE_MARGIN: i32 = 20;

/// Distance from the bottom edge beyond which a shown panel disappears.
pub const FAR_EDGE_MARGIN: i32 = 100;

/// Milliseconds between two pointer samples.
pub const SENSOR_INTERVAL_MS: u64 = 50;

/// Milliseconds between two reads of the flag by the synchronizer.
pub const SYNCHRONIZER_INTERVAL_MS: u64 = 16;

/// Why a set of settings was refused.
#[derive(Clone, Copy, Debug, PartialEq, Eq, Structural)]
pub enum ConfigError {
    /// The near margin is not strictly smaller than the far margin.
    MarginsNotOrdered,
    /// The synchronizer would poll less often than the sensor writes, and
    /// could miss a value.
    SynchronizerSlowerThanSensor,
}

/// The controller's policy settings.
#[derive(Clone, Copy, Debug, PartialEq, Eq, Structural)]
pub struct ControllerConfig {
    pub near_margin: i32,
    pub far_margin: i32,
    pub sensor_interval_ms: u64,
    pub synchronizer_interval_ms: u64,
}

impl ControllerConfig {
    /// The margins leave a dead zone, and the consumer polls at least as
    /// often as the producer writes.
    pub open spec fn wf(&self) -> bool {
        &&& self.near_margin < self.far_margin
        &&& self.synchronizer_interval_ms <= self.sensor_interval_ms
    }

    /// The usual settings: margins of 20 and 100, cadences of 50 ms for the
    /// sensor and 16 ms for the synchronizer.
    pub fn standard() -> (r: ControllerConfig)
        ensures
            r.wf(),
            r.near_margin == NEAR_EDGE_MARGIN,
            r.far_margin == FAR_EDGE_MARGIN,
            r.sensor_interval_ms == SENSOR_INTERVAL_MS,
            r.synchronizer_interval_ms == SYNCHRONIZER_INTERVAL_MS,
    {
        ControllerConfig {
            near_margin: NEAR_EDGE_MARGIN,
            far_margin: FAR_EDGE_MARGIN,
            sensor_interval_ms: SENSOR_INTERVAL_MS,
            synchronizer_interval_ms: SYNCHRONIZER_INTERVAL_MS,
        }
    }

    /// Settings from their parts, refused unless they keep both orderings.
    /// Margins are checked first.
    pub fn new(
        near_margin: i32,
        far_margin: i32,
        sensor_interval_ms: u64,
        synchronizer_interval_ms: u64,
    ) -> (r: Result<ControllerConfig, ConfigError>)
        ensures
            near_margin >= far_margin <==> r == Err::<ControllerConfig, ConfigError>(
                ConfigError::MarginsNotOrdered,
            ),
            near_margin < far_margin && synchronizer_interval_ms > sensor_interval_ms <==> r
                == Err::<ControllerConfig, ConfigError>(
                ConfigError::SynchronizerSlowerThanSensor,
            ),
            r is Ok <==> (ControllerConfig {
                near_margin,
                far_margin,
                sensor_interval_ms,
                synchronizer_interval_ms,
            }).wf(),
            r is Ok ==> r->Ok_0 == (ControllerConfig {
                near_margin,
                far_margin,
                sensor_interval_ms,
                synchronizer_interval_ms,
            }),
    {
        if near_margin >= far_margin {
            Err(ConfigError::MarginsNotOrdered)
        } else if synchronizer_interval_ms > sensor_interval_ms {
            Err(ConfigError::SynchronizerSlowerThanSensor)
        } else {
            Ok(
                ControllerConfig {
                    near_margin,
                    far_margin,
                    sensor_interval_ms,
                    synchronizer_interval_ms,
                },
            )
        }
    }

    /// The thresholds for a screen of height `screen_height`.
    pub fn thresholds(&self, screen_height: i32) -> (r: HysteresisThresholds)
        requires
            self.wf(),
        ensures
            r.wf(),
            r.show_threshold == screen_height - self.near_margin,
            r.hide_threshold == screen_height - self.far_margin,
    {
        HysteresisThresholds {
            show_threshold: screen_height as i64 - self.near_margin as i64,
            hide_threshold: screen_height as i64 - self.far_margin as i64,
        }
    }
}

} // verus!
