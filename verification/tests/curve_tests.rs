use predator_sense::celsius::Celsius;
use predator_sense::curve::{curve_input_temp, fan_curve_pct, CurveLoop, DEFAULT_FAN_CURVE};

fn c(degrees: f64) -> Celsius {
    Celsius::from_bits(degrees.to_bits())
}

fn pct(degrees: f64, steps: &[u8; 6]) -> u8 {
    fan_curve_pct(c(degrees), steps)
}

fn input(cpu: Option<f64>, gpu: Option<f64>) -> Option<f64> {
    curve_input_temp(cpu.map(c), gpu.map(c)).map(|t| f64::from_bits(t.to_bits()))
}

#[test]
fn default_curve_matches_the_original_hardcoded_steps() {
    let steps = DEFAULT_FAN_CURVE;
    assert_eq!(pct(20.0, &steps), 25);
    assert_eq!(pct(44.9, &steps), 25);
    assert_eq!(pct(45.0, &steps), 35);
    assert_eq!(pct(54.9, &steps), 35);
    assert_eq!(pct(55.0, &steps), 50);
    assert_eq!(pct(64.9, &steps), 50);
    assert_eq!(pct(65.0, &steps), 65);
    assert_eq!(pct(74.9, &steps), 65);
    assert_eq!(pct(75.0, &steps), 80);
    assert_eq!(pct(84.9, &steps), 80);
    assert_eq!(pct(85.0, &steps), 100);
    assert_eq!(pct(99.0, &steps), 100);
}

#[test]
fn a_custom_curve_is_honored_at_every_step() {
    // Quieter at low load, more aggressive at high load than the default.
    let steps = [10, 15, 30, 70, 90, 100];
    assert_eq!(pct(30.0, &steps), 10);
    assert_eq!(pct(50.0, &steps), 15);
    assert_eq!(pct(60.0, &steps), 30);
    assert_eq!(pct(70.0, &steps), 70);
    assert_eq!(pct(80.0, &steps), 90);
    assert_eq!(pct(90.0, &steps), 100);
}

#[test]
fn the_hotter_die_drives_the_curve() {
    assert_eq!(input(Some(50.0), Some(80.0)), Some(80.0));
    assert_eq!(input(Some(85.0), Some(40.0)), Some(85.0));
}

#[test]
fn one_sensor_is_enough() {
    // No discrete GPU, no nvidia-smi, or an AMD card.
    assert_eq!(input(Some(60.0), None), Some(60.0));
    assert_eq!(input(None, Some(60.0)), Some(60.0));
}

#[test]
fn a_parked_gpu_reporting_zero_loses() {
    assert_eq!(input(Some(55.0), Some(0.0)), Some(55.0));
}

#[test]
fn no_reading_means_the_fans_are_left_alone() {
    assert_eq!(input(None, None), None);
}

#[test]
fn the_gpu_half_now_reaches_the_curve() {
    // An idle CPU beside a hot GPU must not ask for the lowest speed.
    let steps = DEFAULT_FAN_CURVE;
    let idle_cpu = Some(40.0);
    let hot_gpu = Some(84.0);
    assert_eq!(pct(input(idle_cpu, hot_gpu).unwrap(), &steps), 80);
    assert_eq!(pct(idle_cpu.unwrap(), &steps), 25);
}

#[test]
fn odd_readings_have_a_place_on_the_curve() {
    let steps = DEFAULT_FAN_CURVE;
    assert_eq!(pct(f64::NAN, &steps), 100);
    assert_eq!(pct(-f64::NAN, &steps), 100);
    assert_eq!(pct(f64::INFINITY, &steps), 100);
    assert_eq!(pct(f64::NEG_INFINITY, &steps), 25);
    assert_eq!(pct(-20.0, &steps), 25);
    assert_eq!(pct(-0.0, &steps), 25);
    assert_eq!(pct(5e-324, &steps), 25);
    assert_eq!(pct(f64::MAX, &steps), 100);
    assert_eq!(pct(-90.0, &steps), 25);
}

#[test]
fn a_reading_that_is_no_number_loses() {
    assert_eq!(input(Some(f64::NAN), Some(40.0)), Some(40.0));
    assert_eq!(input(Some(40.0), Some(f64::NAN)), Some(40.0));
    assert!(input(Some(f64::NAN), Some(f64::NAN)).unwrap().is_nan());
}

#[test]
fn readings_compare_as_the_numbers_they_are() {
    let samples = [
        f64::NEG_INFINITY,
        f64::MIN,
        -85.0,
        -1.5,
        -5e-324,
        -0.0,
        0.0,
        5e-324,
        2.2250738585072014e-308,
        1.0,
        44.99999999999999,
        45.0,
        45.00000000000001,
        84.9,
        f64::MAX,
        f64::INFINITY,
        f64::NAN,
    ];
    for a in samples {
        for b in samples {
            assert_eq!(c(a).is_colder(c(b)), a < b, "{} {}", a, b);
        }
    }
}

#[test]
fn the_breakpoints_are_exact() {
    let steps = [0, 1, 2, 3, 4, 5];
    for (i, limit) in [45.0f64, 55.0, 65.0, 75.0, 85.0].iter().enumerate() {
        let just_below = f64::from_bits(limit.to_bits() - 1);
        assert_eq!(pct(just_below, &steps) as usize, i);
        assert_eq!(pct(*limit, &steps) as usize, i + 1);
    }
}

#[test]
fn the_loop_writes_once_at_a_time() {
    let steps = DEFAULT_FAN_CURVE;
    let mut curve = CurveLoop::new();
    assert!(curve.wants_reading(true));
    assert!(!curve.wants_reading(false));
    assert_eq!(curve.tick(false, Some(c(90.0)), None, &steps), None);
    assert_eq!(curve.tick(true, None, None, &steps), None);
    assert!(!curve.applying);
    assert_eq!(curve.tick(true, Some(c(90.0)), None, &steps), Some(100));
    assert!(curve.applying);
    assert!(!curve.wants_reading(true));
    assert_eq!(curve.tick(true, Some(c(20.0)), None, &steps), None);
    curve.finished();
    assert_eq!(curve.tick(true, Some(c(20.0)), Some(c(50.0)), &steps), Some(35));
}

#[test]
fn a_hotter_reading_never_asks_for_less() {
    let mut last = 0;
    for tenths in -100..1200 {
        let now = pct(f64::from(tenths) / 10.0, &DEFAULT_FAN_CURVE);
        assert!(now >= last);
        last = now;
    }
    assert_eq!(last, 100);
}

#[test]
fn a_tick_without_a_reading_starts_nothing() {
    let mut curve = CurveLoop::new();
    assert_eq!(curve.tick(true, None, None, &DEFAULT_FAN_CURVE), None);
    assert!(curve.wants_reading(true));
    assert_eq!(
        curve.tick(true, None, Some(c(70.0)), &DEFAULT_FAN_CURVE),
        Some(65)
    );
    assert!(!curve.wants_reading(true));
}
