use predator_sense::helper::{
    HelperAction, HelperArgument, HelperCommand, PwmControlMode, Script,
};
use predator_sense::pwm::{
    curve_write, get_coolboost, get_pwm_percent, pwm_available, pwm_percent, pwm_reading,
    set_coolboost, set_pwm_auto, set_pwm_percent, speed_text,
};

fn run(script: &mut Script) -> Vec<HelperCommand> {
    let mut sent = vec![];
    while let Some(command) = script.current() {
        sent.push(command);
        assert!(script.advance(Ok(())).is_ok());
    }
    sent
}

fn command(action: HelperAction, argument: HelperArgument) -> HelperCommand {
    HelperCommand { action, argument }
}

#[test]
fn speeds_go_out_after_manual_control() {
    let manual = HelperArgument::ControlMode(PwmControlMode::Manual);
    assert_eq!(
        run(&mut set_pwm_percent(50, 100)),
        vec![
            command(HelperAction::PwmCpuEnable, manual),
            command(HelperAction::PwmGpuEnable, manual),
            command(HelperAction::PwmCpu, HelperArgument::Value(127)),
            command(HelperAction::PwmGpu, HelperArgument::Value(255)),
        ]
    );
}

#[test]
fn more_than_full_speed_is_full_speed() {
    let sent = run(&mut set_pwm_percent(0, 250));
    assert_eq!(sent[2].argument, HelperArgument::Value(0));
    assert_eq!(sent[3].argument, HelperArgument::Value(255));
}

#[test]
fn automatic_control_goes_back_to_both_fans() {
    let automatic = HelperArgument::ControlMode(PwmControlMode::Automatic);
    assert_eq!(
        run(&mut set_pwm_auto()),
        vec![
            command(HelperAction::PwmCpuEnable, automatic),
            command(HelperAction::PwmGpuEnable, automatic),
        ]
    );
}

#[test]
fn a_script_stops_at_the_first_failure() {
    let mut script = set_pwm_percent(30, 30);
    assert!(script.advance(Ok(())).is_ok());
    assert_eq!(
        script.advance(Err("busy".to_string())),
        Err("busy".to_string())
    );
    assert_eq!(script.current(), None);
    assert!(script.advance(Ok(())).is_ok());
    assert_eq!(script.current(), None);
    let mut empty = Script::new(vec![]);
    assert_eq!(run(&mut empty), vec![]);
}

#[test]
fn percentages_read_back_as_themselves_or_one_less() {
    for pct in 0u8..=255 {
        let sent = run(&mut set_pwm_percent(pct, pct));
        let HelperArgument::Value(value) = sent[2].argument else {
            panic!("a speed");
        };
        let text = speed_text(value);
        let read = get_pwm_percent(Some(&text), Some(&text)).unwrap();
        let capped = pct.min(100);
        let expected = if capped % 20 == 0 {
            capped
        } else {
            capped - 1
        };
        assert_eq!(read, (expected, expected));
    }
}

#[test]
fn speeds_are_decimal_text() {
    assert_eq!(speed_text(0), "0");
    assert_eq!(speed_text(9), "9");
    assert_eq!(speed_text(10), "10");
    assert_eq!(speed_text(127), "127");
    for value in 0..=u16::MAX {
        let text = speed_text(value);
        assert_eq!(text, value.to_string());
        assert_eq!(pwm_reading(Some(&text)), Some(value));
    }
    assert_eq!(speed_text(65535), "65535");
}

#[test]
fn readings_are_parsed_strictly() {
    assert_eq!(pwm_reading(Some("255")), Some(255));
    assert_eq!(pwm_reading(Some("+7")), Some(7));
    assert_eq!(pwm_reading(Some("000128")), Some(128));
    assert_eq!(pwm_reading(Some("65535")), Some(65535));
    for text in ["", "+", "-0", "65536", " 1", "1\n", "1_0", "0x10", "++1", "a", "99999999999999999999"] {
        assert_eq!(pwm_reading(Some(text)), None, "{:?}", text);
    }
    assert_eq!(pwm_reading(None), None);
}

#[test]
fn a_missing_or_broken_reading_gives_nothing() {
    assert_eq!(get_pwm_percent(None, None), None);
    assert_eq!(get_pwm_percent(Some(""), Some("")), None);
    assert_eq!(get_pwm_percent(None, Some("1")), None);
    assert_eq!(get_pwm_percent(Some("1"), None), None);
    assert_eq!(get_pwm_percent(Some("x"), Some("1")), None);
    assert_eq!(get_pwm_percent(Some("255"), Some("0")), Some((100, 0)));
    assert_eq!(get_pwm_percent(Some("128"), Some("254")), Some((50, 99)));
}

#[test]
fn more_than_full_speed_reads_as_full_speed() {
    for value in [255, 256, 300, 653, 655, 656, 65535] {
        assert_eq!(pwm_percent(value), 100);
    }
    assert_eq!(get_pwm_percent(Some("300"), Some("65535")), Some((100, 100)));
    assert_eq!(get_pwm_percent(Some("653"), Some("0")), Some((100, 0)));
}

#[test]
fn the_curve_writes_one_speed_for_both_fans() {
    assert!(curve_write(false, 80).is_none());
    let sent = run(&mut curve_write(true, 80).unwrap());
    assert_eq!(sent[2].argument, HelperArgument::Value(204));
    assert_eq!(sent[3].argument, HelperArgument::Value(204));
}

#[test]
fn coolboost_is_switched_and_read() {
    assert_eq!(
        set_coolboost(true),
        command(HelperAction::CoolBoost, HelperArgument::Switch(true))
    );
    assert!(get_coolboost(Some(true)));
    assert!(!get_coolboost(Some(false)));
    assert!(!get_coolboost(None));
}

#[test]
fn only_a_one_means_available() {
    assert!(pwm_available(Some("1")));
    for text in ["0", "", "11", "1\n", " 1"] {
        assert!(!pwm_available(Some(text)));
    }
    assert!(!pwm_available(None));
}

#[test]
fn more_percent_never_sends_less() {
    let mut last = 0;
    for pct in 0..=255 {
        let sent = run(&mut set_pwm_percent(pct, pct));
        let HelperArgument::Value(value) = sent[2].argument else {
            panic!("no value");
        };
        assert!(last <= value && value <= 255);
        assert_eq!(sent[3].argument, HelperArgument::Value(value));
        last = value;
    }
    assert_eq!(last, 255);
}
