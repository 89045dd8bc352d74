use predator_sense::fan::{
    get_fan_mode, set_fan_mode, FanError, FanMode, FanModeChange, FanModeRequest, FanModeStage,
    FanPresetStatus, HelperFanMode,
};
use predator_sense::helper::{HelperAction, HelperArgument, HelperCommand};
use predator_sense::wake::{
    other_profile, wake_dynamic_fan_curve, wake_message, wake_report, wake_request, ThermalReply,
    ThermalRequest, WakeOutcome, WakeReport, WakeStage,
};

fn preset(action: HelperAction) -> HelperCommand {
    HelperCommand {
        action,
        argument: HelperArgument::Nothing,
    }
}

/// A firmware with a thermal profile whose writes fail on demand.
struct Firmware {
    index: u32,
    failing: Vec<u32>,
    supported: Vec<u32>,
    requests: Vec<String>,
}

impl Firmware {
    fn answer(&mut self, request: ThermalRequest) -> ThermalReply {
        self.requests.push(format!("{:?}", request));
        match request {
            ThermalRequest::IsAvailable => ThermalReply::Available(true),
            ThermalRequest::Current => ThermalReply::Current(Some(self.index)),
            ThermalRequest::Supported => ThermalReply::Supported(self.supported.clone()),
            ThermalRequest::Write(index) => {
                if self.failing.contains(&index) {
                    ThermalReply::Written(false)
                } else {
                    self.index = index;
                    ThermalReply::Written(true)
                }
            }
        }
    }
}

fn bounce(firmware: &mut Firmware) -> WakeOutcome {
    let mut stage = WakeStage::AskAvailable;
    while let Some(request) = wake_request(stage) {
        let reply = firmware.answer(request);
        stage = wake_dynamic_fan_curve(stage, reply);
    }
    match stage {
        WakeStage::Done(outcome) => outcome,
        _ => panic!("a bounce that asks for nothing is over"),
    }
}

#[test]
fn presets_are_sent_and_custom_is_refused() {
    let auto = set_fan_mode(FanMode::Auto, FanPresetStatus::Verified).unwrap();
    assert_eq!(
        auto.request(),
        Some(FanModeRequest::Helper(preset(HelperAction::FanAuto)))
    );
    assert!(!auto.unverified);
    let max = set_fan_mode(FanMode::Max, FanPresetStatus::Unverified).unwrap();
    assert_eq!(
        max.request(),
        Some(FanModeRequest::Helper(preset(HelperAction::FanMax)))
    );
    assert!(max.unverified);
    for status in [
        FanPresetStatus::Verified,
        FanPresetStatus::Unverified,
        FanPresetStatus::KnownIncompatible,
    ] {
        let refused = set_fan_mode(FanMode::Custom(50, 60), status).unwrap_err();
        assert!(matches!(refused, FanError::CustomDisabled));
        assert_eq!(refused.message_key(), Some("fan_note"));
    }
}

#[test]
fn an_incompatible_model_is_refused() {
    for mode in [FanMode::Auto, FanMode::Max] {
        let refused = set_fan_mode(mode, FanPresetStatus::KnownIncompatible).unwrap_err();
        assert!(matches!(refused, FanError::EcIncompatible));
        assert_eq!(refused.message_key(), Some("fan_ec_incompatible"));
    }
}

#[test]
fn a_failed_write_is_the_error_of_the_change() {
    let mut change = set_fan_mode(FanMode::Auto, FanPresetStatus::Verified).unwrap();
    let error = change.helper_replied(Err("no polkit".to_string())).unwrap_err();
    assert_eq!(error.message_key(), None);
    assert!(matches!(error, FanError::Helper(words) if words == "no polkit"));
    assert_eq!(change.request(), None);
    change.thermal_replied(ThermalReply::Available(true));
    assert!(change.helper_replied(Ok(())).is_ok());
    assert_eq!(change.request(), None);
}

#[test]
fn only_auto_wakes_the_curve_and_only_after_its_write() {
    let mut max = set_fan_mode(FanMode::Max, FanPresetStatus::Verified).unwrap();
    assert!(max.helper_replied(Ok(())).is_ok());
    assert_eq!(max.request(), None);
    assert_eq!(max.stage, FanModeStage::Done);

    let mut auto = set_fan_mode(FanMode::Auto, FanPresetStatus::Verified).unwrap();
    auto.thermal_replied(ThermalReply::Available(true));
    assert_eq!(
        auto.request(),
        Some(FanModeRequest::Helper(preset(HelperAction::FanAuto)))
    );
    assert!(auto.helper_replied(Ok(())).is_ok());
    let mut firmware = Firmware {
        index: 1,
        failing: vec![],
        supported: vec![0, 1, 4],
        requests: vec![],
    };
    while let Some(FanModeRequest::Thermal(request)) = auto.request() {
        let reply = firmware.answer(request);
        auto.thermal_replied(reply);
    }
    let expected = FanModeChange {
        mode: FanMode::Auto,
        unverified: false,
        stage: FanModeStage::Wake(WakeStage::Done(WakeOutcome::Woken)),
    };
    assert_eq!(auto, expected);
    assert_eq!(firmware.index, 1);
    assert_eq!(
        firmware.requests,
        vec!["IsAvailable", "Current", "Supported", "Write(0)", "Write(1)"]
    );
}

#[test]
fn a_bounce_returns_to_where_it_started() {
    let mut firmware = Firmware {
        index: 0,
        failing: vec![],
        supported: vec![0, 0, 5, 6],
        requests: vec![],
    };
    assert_eq!(bounce(&mut firmware), WakeOutcome::Woken);
    assert_eq!(firmware.index, 0);
    assert_eq!(wake_report(WakeOutcome::Woken), WakeReport::Silent);
}

#[test]
fn a_bounce_that_cannot_begin_moves_nothing() {
    let mut firmware = Firmware {
        index: 0,
        failing: vec![5],
        supported: vec![0, 5],
        requests: vec![],
    };
    let outcome = bounce(&mut firmware);
    assert_eq!(outcome, WakeOutcome::Skipped { other: 5 });
    assert_eq!(firmware.index, 0);
    assert_eq!(wake_report(outcome), WakeReport::Info);
}

#[test]
fn a_bounce_that_cannot_return_is_an_error() {
    let mut firmware = Firmware {
        index: 0,
        failing: vec![0],
        supported: vec![0, 5],
        requests: vec![],
    };
    let outcome = bounce(&mut firmware);
    assert_eq!(outcome, WakeOutcome::LeftAt { other: 5, current: 0 });
    assert_eq!(firmware.index, 5);
    assert_eq!(wake_report(outcome), WakeReport::Error);
}

#[test]
fn the_common_ways_out_are_silent() {
    let unavailable =
        wake_dynamic_fan_curve(WakeStage::AskAvailable, ThermalReply::Available(false));
    assert_eq!(unavailable, WakeStage::Done(WakeOutcome::Unavailable));
    let unread = wake_dynamic_fan_curve(WakeStage::AskCurrent, ThermalReply::Current(None));
    assert_eq!(unread, WakeStage::Done(WakeOutcome::NoCurrent));
    let mut lonely = Firmware {
        index: 3,
        failing: vec![],
        supported: vec![3],
        requests: vec![],
    };
    assert_eq!(bounce(&mut lonely), WakeOutcome::NoOther);
    for outcome in [
        WakeOutcome::Unavailable,
        WakeOutcome::NoCurrent,
        WakeOutcome::NoOther,
    ] {
        assert_eq!(wake_report(outcome), WakeReport::Silent);
    }
}

#[test]
fn an_answer_to_another_question_changes_nothing() {
    let stage = WakeStage::AskSupported { current: 2 };
    assert_eq!(
        wake_dynamic_fan_curve(stage, ThermalReply::Written(true)),
        stage
    );
    let done = WakeStage::Done(WakeOutcome::Woken);
    assert_eq!(
        wake_dynamic_fan_curve(done, ThermalReply::Available(true)),
        done
    );
}

#[test]
fn the_other_profile_is_the_first_that_differs() {
    assert_eq!(other_profile(&vec![1, 1, 4, 2], 1), Some(4));
    assert_eq!(other_profile(&vec![7, 1], 1), Some(7));
    assert_eq!(other_profile(&vec![1], 1), None);
    assert_eq!(other_profile(&vec![], 1), None);
}

#[test]
fn the_firmware_report_is_read_back() {
    assert_eq!(
        get_fan_mode(Some(HelperFanMode::Automatic)),
        Some(FanMode::Auto)
    );
    assert_eq!(
        get_fan_mode(Some(HelperFanMode::Maximum)),
        Some(FanMode::Max)
    );
    assert_eq!(get_fan_mode(None), None);
}

#[test]
fn the_log_names_the_profiles_and_the_error() {
    assert_eq!(
        wake_message(WakeOutcome::Skipped { other: 3 }, "busy").as_deref(),
        Some("fan auto-curve wake skipped: could not set thermal profile 3: busy")
    );
    assert_eq!(
        wake_message(
            WakeOutcome::LeftAt {
                other: u32::MAX,
                current: 10
            },
            "no such file"
        )
        .as_deref(),
        Some(
            "fan auto-curve wake left the firmware power profile at 4294967295 instead of \
             restoring 10: no such file"
        )
    );
    for silent in [
        WakeOutcome::Unavailable,
        WakeOutcome::NoCurrent,
        WakeOutcome::NoOther,
        WakeOutcome::Woken,
    ] {
        assert_eq!(wake_message(silent, "busy"), None);
    }
}

#[test]
fn an_unverified_model_is_remarked_on() {
    let marked = set_fan_mode(FanMode::Max, FanPresetStatus::Unverified).unwrap();
    assert_eq!(
        marked.remark("PH317-55").as_deref(),
        Some(
            "fan preset bytes are unverified on this model (PH317-55); sending the \
             PH315-54 values anyway"
        )
    );
    let known = set_fan_mode(FanMode::Max, FanPresetStatus::Verified).unwrap();
    assert_eq!(known.remark("PH315-54"), None);
}

#[test]
fn the_mode_that_was_set_is_read_back() {
    for mode in [FanMode::Auto, FanMode::Max] {
        let mut change = set_fan_mode(mode, FanPresetStatus::Verified).unwrap();
        let mut report = None;
        while let Some(request) = change.request() {
            match request {
                FanModeRequest::Helper(command) => {
                    report = match command.action {
                        HelperAction::FanAuto => Some(HelperFanMode::Automatic),
                        HelperAction::FanMax => Some(HelperFanMode::Maximum),
                        _ => report,
                    };
                    assert!(change.helper_replied(Ok(())).is_ok());
                }
                FanModeRequest::Thermal(_) => {
                    change.thermal_replied(ThermalReply::Available(false));
                }
            }
        }
        assert_eq!(get_fan_mode(report), Some(mode));
        assert_eq!(get_fan_mode(report), Some(mode));
    }
}
