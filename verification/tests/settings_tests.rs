use predator_sense::curve::DEFAULT_FAN_CURVE;
use predator_sense::fan::FanMode;
use predator_sense::language::{
    current_code, lang_at, lang_code, lang_label_key, picked_language, selected_language, Lang,
    LANG_COUNT,
};
use predator_sense::profile::{PowerProfile, PowerSource};
use predator_sense::settings::{
    setting_effect, AppConfig, EcoMode, EcoRequest, FanSettings, Setting, SettingEffect, StartupFanStep, Switches,
    TargetProfiles,
};

const SETTINGS: [Setting; 13] = [
    Setting::MinimizeOnClose,
    Setting::AutoApplyOnStart,
    Setting::CustomIcons,
    Setting::KeepDefaultThemeColor,
    Setting::StartOnBoot,
    Setting::TempAlerts,
    Setting::AutoProfileAc,
    Setting::DebugLogging,
    Setting::KeepFanAutoInPerformance,
    Setting::ManageCpuPower,
    Setting::AiAssistant,
    Setting::AiAutoApply,
    Setting::BatteryLimiter,
];

fn all_off() -> Switches {
    Switches {
        minimize_on_close: false,
        auto_apply_on_start: false,
        custom_icons_enabled: false,
        keep_default_theme_color: false,
        start_on_boot: false,
        temp_alerts: false,
        auto_profile_ac: false,
        debug_logging: false,
        keep_fan_auto_in_performance: false,
        manage_cpu_power: false,
        ai_assistant_enabled: false,
        ai_auto_apply: false,
        battery_limiter: false,
    }
}

fn fans(coolboost_enabled: bool, mode: Option<&str>) -> FanSettings {
    FanSettings {
        coolboost_enabled,
        mode: mode.map(|m| m.to_string()),
        auto_curve_enabled: false,
        curve_points: DEFAULT_FAN_CURVE,
    }
}

#[test]
fn a_switch_changes_one_setting() {
    for setting in SETTINGS {
        let mut switches = all_off();
        switches.switch(setting, true);
        for other in SETTINGS {
            assert_eq!(switches.is_on(other), other == setting);
        }
        switches.switch(setting, false);
        assert_eq!(switches, all_off());
    }
}

#[test]
fn switches_reach_their_own_fields() {
    let mut switches = all_off();
    switches.switch(Setting::KeepFanAutoInPerformance, true);
    switches.switch(Setting::BatteryLimiter, true);
    let expected = Switches {
        keep_fan_auto_in_performance: true,
        battery_limiter: true,
        ..all_off()
    };
    assert_eq!(switches, expected);
}

#[test]
fn switches_say_what_follows() {
    let mut switches = all_off();
    let effects: Vec<SettingEffect> = SETTINGS
        .iter()
        .map(|s| switches.switch(*s, true))
        .collect();
    assert_eq!(
        effects,
        vec![
            SettingEffect::Nothing,
            SettingEffect::Nothing,
            SettingEffect::Nothing,
            SettingEffect::Nothing,
            SettingEffect::Autostart(true),
            SettingEffect::TempAlerts(true),
            SettingEffect::AutoProfile(true),
            SettingEffect::DebugLogging(true),
            SettingEffect::KeepFanAuto(true),
            SettingEffect::ManageCpuPower(true),
            SettingEffect::AiControls(true),
            SettingEffect::Nothing,
            SettingEffect::BatteryLimiter(true),
        ]
    );
}

#[test]
fn switches_of_two_settings_commute() {
    let mut one = all_off();
    one.switch(Setting::TempAlerts, true);
    one.switch(Setting::StartOnBoot, true);
    let mut other = all_off();
    other.switch(Setting::StartOnBoot, true);
    other.switch(Setting::TempAlerts, true);
    assert_eq!(one, other);
}

#[test]
fn eco_brings_back_what_it_found() {
    let mut eco = EcoMode {
        enabled: false,
        saved_volume_pct: None,
        saved_brightness_pct: None,
    };
    assert_eq!(eco.request(true), EcoRequest::Enable);
    assert!(!eco.switched_on(Ok((Some(80), None))));
    assert!(eco.enabled);
    assert_eq!(
        eco.request(false),
        EcoRequest::Disable {
            volume: Some(80),
            brightness: None
        }
    );
    assert!(!eco.switched_off(Ok(())));
    assert!(!eco.enabled);
    assert_eq!(eco.saved_volume_pct, None);
}

#[test]
fn a_failed_eco_switch_goes_back() {
    let mut eco = EcoMode {
        enabled: false,
        saved_volume_pct: Some(5),
        saved_brightness_pct: None,
    };
    let before = eco;
    assert!(eco.switched_on(Err("dismissed".to_string())));
    assert_eq!(eco, before);
    assert!(!eco.switched_on(Ok((Some(70), Some(90)))));
    assert!(eco.switched_off(Err("dismissed".to_string())));
    assert_eq!(
        eco,
        EcoMode {
            enabled: true,
            saved_volume_pct: None,
            saved_brightness_pct: None
        }
    );
}

#[test]
fn picking_a_profile_tells_both_targets() {
    let mut targets = TargetProfiles {
        ac: PowerProfile::Balanced,
        battery: PowerProfile::Quiet,
    };
    assert_eq!(
        targets.pick(PowerSource::Mains, 3),
        Some((PowerProfile::Turbo, PowerProfile::Quiet))
    );
    assert_eq!(
        targets.pick(PowerSource::Battery, 4),
        Some((PowerProfile::Turbo, PowerProfile::Eco))
    );
    assert_eq!(targets.pick(PowerSource::Mains, 4), None);
    assert_eq!(
        targets,
        TargetProfiles {
            ac: PowerProfile::Turbo,
            battery: PowerProfile::Eco
        }
    );
}

#[test]
fn the_fans_are_told_again_at_the_start() {
    assert_eq!(fans(true, Some("max")).startup_work(false), None);
    assert_eq!(fans(false, None).startup_work(true), None);
    let on = StartupFanStep::CoolBoost(true);
    assert_eq!(fans(true, None).startup_work(true), Some(vec![on]));
    assert_eq!(
        fans(false, Some("max")).startup_work(true),
        Some(vec![StartupFanStep::Mode(FanMode::Max)])
    );
    assert_eq!(
        fans(true, Some("auto")).startup_work(true),
        Some(vec![on, StartupFanStep::Mode(FanMode::Auto)])
    );
    assert_eq!(
        fans(false, Some("Max")).startup_work(true),
        Some(vec![])
    );
    assert_eq!(fans(false, Some("")).startup_work(true), Some(vec![]));
}

#[test]
fn languages_are_listed_in_order() {
    let codes: Vec<&str> = (0..LANG_COUNT)
        .map(|i| lang_code(lang_at(i).unwrap()))
        .collect();
    assert_eq!(
        codes,
        vec!["pt", "en", "es", "zh", "ja", "ru", "de", "it", "tr"]
    );
    for i in 0..LANG_COUNT {
        let lang = lang_at(i).unwrap();
        assert_eq!(
            lang_label_key(lang),
            format!("language_{}", lang_code(lang))
        );
        assert_eq!(selected_language(lang_code(lang)), i);
    }
    assert_eq!(lang_at(LANG_COUNT), None);
}

#[test]
fn the_saved_language_goes_before_the_detected_one() {
    assert_eq!(current_code(&None, Lang::Ru), "ru");
    assert_eq!(current_code(&Some("xx".to_string()), Lang::Ru), "xx");
    assert_eq!(selected_language("xx"), 0);
    assert_eq!(selected_language(""), 0);
}

#[test]
fn only_another_language_counts_as_picked() {
    assert_eq!(picked_language(1, "pt"), Some(Lang::En));
    assert_eq!(picked_language(0, "pt"), None);
    assert_eq!(picked_language(LANG_COUNT, "pt"), None);
    assert_eq!(picked_language(u32::MAX as usize, "pt"), None);
    assert_eq!(picked_language(0, "xx"), Some(Lang::Pt));
}

#[test]
fn a_picked_language_is_saved() {
    let mut config = AppConfig {
        switches: all_off(),
        eco: EcoMode {
            enabled: false,
            saved_volume_pct: None,
            saved_brightness_pct: None,
        },
        profiles: TargetProfiles {
            ac: PowerProfile::Balanced,
            battery: PowerProfile::Quiet,
        },
        fans: fans(true, Some("auto")),
        ai_check_interval_min: 15,
        game_sync_enabled: true,
        language: None,
    };
    config.set_language(Lang::De);
    assert_eq!(config.language, Some("de".to_string()));
    assert_eq!(config.fans.mode, Some("auto".to_string()));
}

#[test]
fn the_last_switch_counts() {
    let mut switches = all_off();
    switches.switch(Setting::DebugLogging, true);
    switches.switch(Setting::CustomIcons, true);
    switches.switch(Setting::DebugLogging, false);
    assert!(!switches.is_on(Setting::DebugLogging));
    assert!(switches.is_on(Setting::CustomIcons));
}

#[test]
fn a_picked_language_is_shown_and_not_picked_again() {
    for place in 1..LANG_COUNT {
        let lang = picked_language(place, "pt").unwrap();
        assert_eq!(selected_language(lang_code(lang)), place);
        assert_eq!(picked_language(place, lang_code(lang)), None);
    }
}

#[test]
fn only_the_battery_is_told_before_saving() {
    for setting in SETTINGS {
        for active in [true, false] {
            let mut switches = all_off();
            let effect = setting_effect(setting, active);
            assert_eq!(switches.switch(setting, active), effect);
            assert_eq!(
                effect.goes_before_saving(),
                setting == Setting::BatteryLimiter
            );
        }
    }
}
