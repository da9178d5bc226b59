use docky::config::{
    ConfigError, ControllerConfig, FAR_EDGE_MARGIN, NEAR_EDGE_MARGIN, SENSOR_INTERVAL_MS,
    SYNCHRONIZER_INTERVAL_MS,
};
use docky::hysteresis::HysteresisThresholds;
use docky::sensor::PointerSensor;
use docky::synchronizer::{Directive, Synchronizer};

fn show_set() -> Vec<Directive> {
    vec![
        Directive::Activate,
        Directive::ResizeToPanel,
        Directive::RequestRedraw,
    ]
}

fn hide_set() -> Vec<Directive> {
    vec![Directive::ResizeToMinimal, Directive::RequestRedraw]
}

#[test]
fn standard_config_values() {
    let c = ControllerConfig::standard();
    assert_eq!(c.near_margin, 20);
    assert_eq!(c.far_margin, 100);
    assert_eq!(c.sensor_interval_ms, 50);
    assert_eq!(c.synchronizer_interval_ms, 16);
    assert_eq!(
        (NEAR_EDGE_MARGIN, FAR_EDGE_MARGIN, SENSOR_INTERVAL_MS, SYNCHRONIZER_INTERVAL_MS),
        (20, 100, 50, 16)
    );
}

#[test]
fn config_errors() {
    assert_eq!(
        ControllerConfig::new(100, 20, 50, 16),
        Err(ConfigError::MarginsNotOrdered)
    );
    assert_eq!(
        ControllerConfig::new(100, 20, 16, 50),
        Err(ConfigError::MarginsNotOrdered)
    );
    assert_eq!(
        ControllerConfig::new(20, 100, 16, 50),
        Err(ConfigError::SynchronizerSlowerThanSensor)
    );
    let equal = ControllerConfig::new(20, 100, 50, 50).unwrap();
    assert_eq!(equal.synchronizer_interval_ms, 50);
    let t = equal.thresholds(800);
    assert_eq!((t.show_threshold, t.hide_threshold), (780, 700));
}

#[test]
fn sensor_follows_hysteresis() {
    let t = HysteresisThresholds::new(1000, 20, 100).unwrap();
    let mut s = PointerSensor::new(t, true);
    let got: Vec<bool> = [500, 985, 985, 920, 850]
        .iter()
        .map(|y| s.tick(Some(*y)))
        .collect();
    assert_eq!(got, vec![false, true, true, true, false]);
}

#[test]
fn failed_query_keeps_the_flag() {
    let t = HysteresisThresholds::new(1000, 20, 100).unwrap();
    let mut s = PointerSensor::new(t, true);
    assert!(s.tick(Some(990)));
    assert!(s.tick(None));
    assert!(s.tick(None));
    assert!(!s.tick(Some(10)));
    assert!(!s.tick(None));
}

#[test]
fn setup_failure_keeps_panel_hidden() {
    let t = HysteresisThresholds::new(1000, 20, 100).unwrap();
    let mut s = PointerSensor::new(t, false);
    let mut sync = Synchronizer::new();
    for y in [990, 1000, 985, 500, 999] {
        let flag = s.tick(Some(y));
        assert!(!flag);
        assert!(sync.tick(flag).is_empty());
    }
    assert!(!s.visible);
    assert!(!sync.last_visible);
}

#[test]
fn idempotent_ticks() {
    let mut sync = Synchronizer::new();
    assert_eq!(sync.tick(true), show_set());
    for _ in 0..10 {
        assert!(sync.tick(true).is_empty());
    }
    assert_eq!(sync.tick(false), hide_set());
    for _ in 0..10 {
        assert!(sync.tick(false).is_empty());
    }
}

#[test]
fn one_set_per_edge() {
    let mut sync = Synchronizer::new();
    let out = sync.replay(&vec![false, false, true, true, true, false]);
    let expected: Vec<Vec<Directive>> = vec![
        vec![],
        vec![],
        show_set(),
        vec![],
        vec![],
        hide_set(),
    ];
    assert_eq!(out, expected);
    let issued: Vec<Vec<Directive>> = out.into_iter().filter(|d| !d.is_empty()).collect();
    assert_eq!(issued, vec![show_set(), hide_set()]);
    assert!(!sync.last_visible);
}

#[test]
fn equal_cadence_with_delayed_sensor() {
    // Both loops tick on the same clock; the sensor's writes reach the flag
    // three ticks late.
    let t = HysteresisThresholds::new(1000, 20, 100).unwrap();
    let mut sensor = PointerSensor::new(t, true);
    let samples = [500, 990, 995, 940, 990, 850, 860, 999, 999, 999, 999, 999];
    let written: Vec<bool> = samples.iter().map(|y| sensor.tick(Some(*y))).collect();
    let delay = 3;
    let mut observed = vec![false; delay];
    observed.extend(written.iter().copied());
    let mut sync = Synchronizer::new();
    let out = sync.replay(&observed);
    let issued: Vec<Vec<Directive>> = out.into_iter().filter(|d| !d.is_empty()).collect();
    assert_eq!(issued, vec![show_set(), hide_set(), show_set()]);
    for pair in issued.windows(2) {
        assert_ne!(pair[0], pair[1]);
    }
    assert_eq!(sync.last_visible, *written.last().unwrap());
    assert!(sync.last_visible);
}

#[test]
fn synchronizer_starts_hidden() {
    let sync = Synchronizer::new();
    assert!(!sync.last_visible);
    let mut again = sync;
    assert!(again.tick(false).is_empty());
    assert_eq!(again.tick(true), show_set());
}
