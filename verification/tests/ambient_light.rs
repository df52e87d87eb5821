use zenbook_duo_daemon::ambient_light::{
    AmbientLightSmoother, LevelComparison, LevelStep, WindowStep,
};

const LOW_LIGHT_LUX: f64 = 10.0;

/// The lux side of the smoother: levels are compared here, windows are kept by the library.
struct Lux {
    smoother: AmbientLightSmoother,
    stable_lux: f64,
    samples: Vec<f64>,
}

impl Lux {
    fn new(initial: f64) -> Self {
        Lux { smoother: AmbientLightSmoother::new(), stable_lux: initial, samples: Vec::new() }
    }

    fn drifts(&self, lux: f64) -> bool {
        (lux - self.stable_lux).abs() >= (self.stable_lux.abs() * 0.10).max(1.0)
    }

    fn observe_level(&mut self, lux: f64, now: u64) -> Option<f64> {
        let level = LevelComparison {
            darkens: self.stable_lux > LOW_LIGHT_LUX && lux <= LOW_LIGHT_LUX,
            drifts: self.drifts(lux),
        };
        match self.smoother.observe_level(level, now) {
            LevelStep::Adopt => {
                self.samples.clear();
                self.stable_lux = lux;
                Some(lux)
            }
            LevelStep::Record => {
                self.samples.push(lux);
                None
            }
            LevelStep::Ignore => None,
        }
    }

    fn record_sample(&mut self, lux: f64, now: u64) {
        self.smoother.record_sample(now);
        self.samples.push(lux);
    }

    fn finish_window(&mut self, lux: f64) -> Option<f64> {
        let mut samples = self.samples.clone();
        samples.push(lux);
        let average = samples.iter().sum::<f64>() / samples.len() as f64;
        match self.smoother.finish_window(self.drifts(average)) {
            WindowStep::Adopt => {
                self.samples.clear();
                self.stable_lux = average;
                Some(average)
            }
            WindowStep::Forget => {
                self.samples.clear();
                None
            }
            WindowStep::Nothing => None,
        }
    }
}

#[test]
fn smoother_waits_for_full_window() {
    let mut lux = Lux::new(100.0);
    assert_eq!(lux.observe_level(85.0, 0), None);

    assert!(lux.smoother.has_pending_window());
}

#[test]
fn smoother_emits_after_sparse_large_drift() {
    let mut lux = Lux::new(100.0);
    lux.record_sample(1.0, 0);

    let stable = lux.finish_window(1.0);

    assert_eq!(stable, Some(1.0));
}

#[test]
fn smoother_promotes_dark_immediately() {
    let mut lux = Lux::new(100.0);

    let stable = lux.observe_level(1.0, 0);

    assert_eq!(stable, Some(1.0));
    assert!(!lux.smoother.has_pending_window());
}

#[test]
fn smoother_ignores_small_drift() {
    let mut lux = Lux::new(100.0);
    assert_eq!(lux.observe_level(96.0, 0), None);

    let stable = lux.finish_window(96.0);

    assert_eq!(stable, None);
}

#[test]
fn window_ends_twenty_seconds_after_its_first_level() {
    let mut smoother = AmbientLightSmoother::new();
    assert_eq!(smoother.deadline(), None);
    let drift = LevelComparison { darkens: false, drifts: true };
    let still = LevelComparison { darkens: false, drifts: false };
    assert_eq!(smoother.observe_level(still, 5), LevelStep::Ignore);
    assert_eq!(smoother.observe_level(drift, 1_000), LevelStep::Record);
    assert_eq!(smoother.observe_level(still, 9_000), LevelStep::Record);
    assert_eq!(smoother.deadline(), Some(21_000));
    assert_eq!(smoother.finish_window(false), WindowStep::Forget);
    assert_eq!(smoother.finish_window(true), WindowStep::Nothing);
    assert_eq!(smoother.deadline(), None);
}
