//! The saved settings and what changing one of them calls for.

use vstd::prelude::*;
use crate::fan::FanMode;
use crate::language::{code, lang_code, Lang};
use crate::profile::{picked_choice, profile_choices, PowerProfile, PowerSource};
use crate::text::same_text;

verus! {

/// The settings that are either on or off.
#[derive(Debug, Clone, Copy, PartialEq, Eq, Structural)]
pub struct Switches {
    pub minimize_on_close: bool,
    pub auto_apply_on_start: bool,
    pub custom_icons_enabled: bool,
    pub keep_default_theme_color: bool,
    pub start_on_boot: bool,
    pub temp_alerts: bool,
    pub auto_profile_ac: bool,
    pub debug_logging: bool,
    pub keep_fan_auto_in_performance: bool,
    pub manage_cpu_power: bool,
    pub ai_assistant_enabled: bool,
    pub ai_auto_apply: bool,
    pub battery_limiter: bool,
}

/// Eco mode, and the volume and brightness that it found.
#[derive(Debug, Clone, Copy, PartialEq, Eq, Structural)]
pub struct EcoMode {
    pub enabled: bool,
    pub saved_volume_pct: Option<u32>,
    pub saved_brightness_pct: Option<u32>,
}

/// The profile for each power source.
#[derive(Debug, Clone, Copy, PartialEq, Eq, Structural)]
pub struct TargetProfiles {
    pub ac: PowerProfile,
    pub battery: PowerProfile,
}

/// What was saved about the fans.
#[derive(Debug)]
pub struct FanSettings {
    pub coolboost_enabled: bool,
    pub mode: Option<String>,
    pub auto_curve_enabled: bool,
    pub curve_points: [u8; 6],
}

/// The saved settings that the window reads and writes.
#[derive(Debug)]
pub struct AppConfig {
    pub switches: Switches,
    pub eco: EcoMode,
    pub profiles: TargetProfiles,
    pub fans: FanSettings,
    pub ai_check_interval_min: u32,
    pub game_sync_enabled: bool,
    pub language: Option<String>,
}

/// The settings with a plain switch.
#[derive(Debug, Clone, Copy, PartialEq, Eq, Structural)]
pub enum Setting {
    MinimizeOnClose,
    AutoApplyOnStart,
    CustomIcons,
    KeepDefaultThemeColor,
    StartOnBoot,
    TempAlerts,
    AutoProfileAc,
    DebugLogging,
    KeepFanAutoInPerformance,
    ManageCpuPower,
    AiAssistant,
    AiAutoApply,
    BatteryLimiter,
}

/// What has to be done about a switch besides saving it.
#[derive(Debug, Clone, Copy, PartialEq, Eq, Structural)]
pub enum SettingEffect {
    Nothing,
    /// Add or remove the autostart entry.
    Autostart(bool),
    /// Tell the temperature alerts.
    TempAlerts(bool),
    /// Tell the profile switcher, and let the two profile rows be used or not.
    AutoProfile(bool),
    /// Tell the log, and restart the hotkey service to make it look again.
    DebugLogging(bool),
    /// Tell the profiles.
    KeepFanAuto(bool),
    /// Tell the profiles.
    ManageCpuPower(bool),
    /// Let the assistant's other controls be used or not.
    AiControls(bool),
    /// Tell the battery; it forgets across a power cycle, which is why the
    /// setting is saved.
    BatteryLimiter(bool),
}

impl Switches {
    /// Whether a setting is on.
    pub open spec fn on(self, setting: Setting) -> bool {
        match setting {
            Setting::MinimizeOnClose => self.minimize_on_close,
            Setting::AutoApplyOnStart => self.auto_apply_on_start,
            Setting::CustomIcons => self.custom_icons_enabled,
            Setting::KeepDefaultThemeColor => self.keep_default_theme_color,
            Setting::StartOnBoot => self.start_on_boot,
            Setting::TempAlerts => self.temp_alerts,
            Setting::AutoProfileAc => self.auto_profile_ac,
            Setting::DebugLogging => self.debug_logging,
            Setting::KeepFanAutoInPerformance => self.keep_fan_auto_in_performance,
            Setting::ManageCpuPower => self.manage_cpu_power,
            Setting::AiAssistant => self.ai_assistant_enabled,
            Setting::AiAutoApply => self.ai_auto_apply,
            Setting::BatteryLimiter => self.battery_limiter,
        }
    }

    /// These are the settings of `before` with one of them switched and every
    /// other as it was.
    pub open spec fn switched_from(
        self,
        before: Switches,
        setting: Setting,
        active: bool,
    ) -> bool {
        forall|other: Setting| #[trigger]
            self.on(other) == if other == setting {
                active
            } else {
                before.on(other)
            }
    }

    /// Whether a setting is on.
    pub fn is_on(&self, setting: Setting) -> (on: bool)
        ensures
            on == self.on(setting),
    {
        match setting {
            Setting::MinimizeOnClose => self.minimize_on_close,
            Setting::AutoApplyOnStart => self.auto_apply_on_start,
            Setting::CustomIcons => self.custom_icons_enabled,
            Setting::KeepDefaultThemeColor => self.keep_default_theme_color,
            Setting::StartOnBoot => self.start_on_boot,
            Setting::TempAlerts => self.temp_alerts,
            Setting::AutoProfileAc => self.auto_profile_ac,
            Setting::DebugLogging => self.debug_logging,
            Setting::KeepFanAutoInPerformance => self.keep_fan_auto_in_performance,
            Setting::ManageCpuPower => self.manage_cpu_power,
            Setting::AiAssistant => self.ai_assistant_enabled,
            Setting::AiAutoApply => self.ai_auto_apply,
            Setting::BatteryLimiter => self.battery_limiter,
        }
    }

    /// The value of one setting once another, or the same, has been switched.
    fn value_after(&self, of: Setting, setting: Setting, active: bool) -> (value: bool)
        ensures
            value == if of == setting {
                active
            } else {
                self.on(of)
            },
    {
        if of == setting {
            active
        } else {
            self.is_on(of)
        }
    }

    /// The settings with one of them switched.
    fn switched(&self, setting: Setting, active: bool) -> (switches: Switches)
        ensures
            switches.switched_from(*self, setting, active),
    {
        let switches = Switches {
            minimize_on_close: self.value_after(Setting::MinimizeOnClose, setting, active),
            auto_apply_on_start: self.value_after(Setting::AutoApplyOnStart, setting, active),
            custom_icons_enabled: self.value_after(Setting::CustomIcons, setting, active),
            keep_default_theme_color: self.value_after(Setting::KeepDefaultThemeColor, setting, active),
            start_on_boot: self.value_after(Setting::StartOnBoot, setting, active),
            temp_alerts: self.value_after(Setting::TempAlerts, setting, active),
            auto_profile_ac: self.value_after(Setting::AutoProfileAc, setting, active),
            debug_logging: self.value_after(Setting::DebugLogging, setting, active),
            keep_fan_auto_in_performance: self.value_after(Setting::KeepFanAutoInPerformance, setting, active),
            manage_cpu_power: self.value_after(Setting::ManageCpuPower, setting, active),
            ai_assistant_enabled: self.value_after(Setting::AiAssistant, setting, active),
            ai_auto_apply: self.value_after(Setting::AiAutoApply, setting, active),
            battery_limiter: self.value_after(Setting::BatteryLimiter, setting, active),
        };
        proof {
            assert forall|other: Setting| #[trigger] switches.on(other) == if other == setting {
                active
            } else {
                self.on(other)
            } by {
                match other {
                    Setting::MinimizeOnClose => {},
                    Setting::AutoApplyOnStart => {},
                    Setting::CustomIcons => {},
                    Setting::KeepDefaultThemeColor => {},
                    Setting::StartOnBoot => {},
                    Setting::TempAlerts => {},
                    Setting::AutoProfileAc => {},
                    Setting::DebugLogging => {},
                    Setting::KeepFanAutoInPerformance => {},
                    Setting::ManageCpuPower => {},
                    Setting::AiAssistant => {},
                    Setting::AiAutoApply => {},
                    Setting::BatteryLimiter => {},
                }
            }
        }
        switches
    }

    /// Switches a setting and says what has to be done besides saving it.
    pub fn switch(&mut self, setting: Setting, active: bool) -> (effect: SettingEffect)
        ensures
            final(self).switched_from(*old(self), setting, active),
            effect == effect_of(setting, active),
    {
        *self = self.switched(setting, active);
        setting_effect(setting, active)
    }
}

impl SettingEffect {
    /// Whether the effect comes before the setting is saved: the battery is
    /// told first, everybody else afterwards.
    pub fn goes_before_saving(&self) -> (first: bool)
        ensures
            first == (self is BatteryLimiter),
    {
        match self {
            SettingEffect::BatteryLimiter(_) => true,
            _ => false,
        }
    }
}

/// What has to be done about a switch besides saving it.
pub fn setting_effect(setting: Setting, active: bool) -> (effect: SettingEffect)
    ensures
        effect == effect_of(setting, active),
{
    match setting {
        Setting::StartOnBoot => SettingEffect::Autostart(active),
        Setting::TempAlerts => SettingEffect::TempAlerts(active),
        Setting::AutoProfileAc => SettingEffect::AutoProfile(active),
        Setting::DebugLogging => SettingEffect::DebugLogging(active),
        Setting::KeepFanAutoInPerformance => SettingEffect::KeepFanAuto(active),
        Setting::ManageCpuPower => SettingEffect::ManageCpuPower(active),
        Setting::AiAssistant => SettingEffect::AiControls(active),
        Setting::BatteryLimiter => SettingEffect::BatteryLimiter(active),
        _ => SettingEffect::Nothing,
    }
}

/// What has to be done about a switch besides saving it.
pub open spec fn effect_of(setting: Setting, active: bool) -> SettingEffect {
    match setting {
        Setting::StartOnBoot => SettingEffect::Autostart(active),
        Setting::TempAlerts => SettingEffect::TempAlerts(active),
        Setting::AutoProfileAc => SettingEffect::AutoProfile(active),
        Setting::DebugLogging => SettingEffect::DebugLogging(active),
        Setting::KeepFanAutoInPerformance => SettingEffect::KeepFanAuto(active),
        Setting::ManageCpuPower => SettingEffect::ManageCpuPower(active),
        Setting::AiAssistant => SettingEffect::AiControls(active),
        Setting::BatteryLimiter => SettingEffect::BatteryLimiter(active),
        _ => SettingEffect::Nothing,
    }
}

/// Two sets of switches that agree on every setting are the same.
proof fn lemma_switches_agree(a: Switches, b: Switches)
    requires
        forall|setting: Setting| #[trigger] a.on(setting) == b.on(setting),
    ensures
        a == b,
{
    assert(a.on(Setting::MinimizeOnClose) == b.on(Setting::MinimizeOnClose));
    assert(a.on(Setting::AutoApplyOnStart) == b.on(Setting::AutoApplyOnStart));
    assert(a.on(Setting::CustomIcons) == b.on(Setting::CustomIcons));
    assert(a.on(Setting::KeepDefaultThemeColor) == b.on(Setting::KeepDefaultThemeColor));
    assert(a.on(Setting::StartOnBoot) == b.on(Setting::StartOnBoot));
    assert(a.on(Setting::TempAlerts) == b.on(Setting::TempAlerts));
    assert(a.on(Setting::AutoProfileAc) == b.on(Setting::AutoProfileAc));
    assert(a.on(Setting::DebugLogging) == b.on(Setting::DebugLogging));
    assert(a.on(Setting::KeepFanAutoInPerformance) == b.on(Setting::KeepFanAutoInPerformance));
    assert(a.on(Setting::ManageCpuPower) == b.on(Setting::ManageCpuPower));
    assert(a.on(Setting::AiAssistant) == b.on(Setting::AiAssistant));
    assert(a.on(Setting::AiAutoApply) == b.on(Setting::AiAutoApply));
    assert(a.on(Setting::BatteryLimiter) == b.on(Setting::BatteryLimiter));
}

/// One switch has one result.
pub proof fn a_switch_has_one_result(
    before: Switches,
    one: Switches,
    another: Switches,
    setting: Setting,
    active: bool,
)
    requires
        one.switched_from(before, setting, active),
        another.switched_from(before, setting, active),
    ensures
        one == another,
{
    lemma_switches_agree(one, another);
}

/// Of two switches of one setting the last counts.
pub proof fn the_last_switch_counts(
    before: Switches,
    between: Switches,
    after: Switches,
    setting: Setting,
    first: bool,
    second: bool,
)
    requires
        between.switched_from(before, setting, first),
        after.switched_from(between, setting, second),
    ensures
        after.switched_from(before, setting, second),
        after.on(setting) == second,
{
    assert forall|other: Setting| #[trigger] after.on(other) == if other == setting {
        second
    } else {
        before.on(other)
    } by {
        assert(between.on(other) == if other == setting {
            first
        } else {
            before.on(other)
        });
    }
}

/// Switches of two settings may come in either order.
pub proof fn switches_of_two_settings_commute(
    before: Switches,
    first: (Setting, bool),
    second: (Setting, bool),
    one_way: (Switches, Switches),
    other_way: (Switches, Switches),
)
    requires
        first.0 != second.0,
        one_way.0.switched_from(before, first.0, first.1),
        one_way.1.switched_from(one_way.0, second.0, second.1),
        other_way.0.switched_from(before, second.0, second.1),
        other_way.1.switched_from(other_way.0, first.0, first.1),
    ensures
        one_way.1 == other_way.1,
{
    assert forall|s: Setting| #[trigger] one_way.1.on(s) == other_way.1.on(s) by {
        assert(one_way.0.on(s) == if s == first.0 {
            first.1
        } else {
            before.on(s)
        });
        assert(other_way.0.on(s) == if s == second.0 {
            second.1
        } else {
            before.on(s)
        });
    }
    lemma_switches_agree(one_way.1, other_way.1);
}

/// What switching Eco mode asks of the machine.
#[derive(Debug, Clone, Copy, PartialEq, Eq, Structural)]
pub enum EcoRequest {
    /// Lower volume and brightness and say what they were.
    Enable,
    /// Bring volume and brightness back to what they were.
    Disable { volume: Option<u32>, brightness: Option<u32> },
}

impl EcoMode {
    /// What switching Eco mode asks of the machine.
    pub open spec fn asks(self, active: bool) -> EcoRequest {
        if active {
            EcoRequest::Enable
        } else {
            EcoRequest::Disable {
                volume: self.saved_volume_pct,
                brightness: self.saved_brightness_pct,
            }
        }
    }

    /// Eco mode after an attempt to switch it on.
    pub open spec fn after_on(
        self,
        result: Result<(Option<u32>, Option<u32>), String>,
    ) -> EcoMode {
        match result {
            Ok(was) => EcoMode {
                enabled: true,
                saved_volume_pct: was.0,
                saved_brightness_pct: was.1,
            },
            Err(_) => self,
        }
    }

    /// Eco mode after an attempt to switch it off.
    pub open spec fn after_off(self, ok: bool) -> EcoMode {
        EcoMode {
            enabled: !ok && self.enabled,
            saved_volume_pct: None,
            saved_brightness_pct: None,
        }
    }

    /// What switching Eco mode asks of the machine.
    pub fn request(&self, active: bool) -> (request: EcoRequest)
        ensures
            request == self.asks(active),
    {
        if active {
            EcoRequest::Enable
        } else {
            EcoRequest::Disable {
                volume: self.saved_volume_pct,
                brightness: self.saved_brightness_pct,
            }
        }
    }

    /// Eco mode was to be switched on. On success the old volume and
    /// brightness are kept and the mode is on; on failure nothing changes.
    /// The answer is whether the switch has to go back.
    pub fn switched_on(&mut self, result: Result<(Option<u32>, Option<u32>), String>) -> (go_back:
        bool)
        ensures
            go_back == (result is Err),
            *final(self) == old(self).after_on(result),
    {
        match result {
            Ok(was) => {
                self.saved_volume_pct = was.0;
                self.saved_brightness_pct = was.1;
                self.enabled = true;
                false
            },
            Err(_) => true,
        }
    }

    /// Eco mode was to be switched off. The old volume and brightness are
    /// forgotten either way; the mode is off only on success. The answer is
    /// whether the switch has to go back.
    pub fn switched_off(&mut self, result: Result<(), String>) -> (go_back: bool)
        ensures
            go_back == (result is Err),
            *final(self) == old(self).after_off(result is Ok),
    {
        self.saved_volume_pct = None;
        self.saved_brightness_pct = None;
        match result {
            Ok(_) => {
                self.enabled = false;
                false
            },
            Err(_) => true,
        }
    }
}

impl TargetProfiles {
    /// The profile of a power source.
    pub open spec fn of(self, source: PowerSource) -> PowerProfile {
        match source {
            PowerSource::Mains => self.ac,
            PowerSource::Battery => self.battery,
        }
    }

    /// The settings with the profile of a power source replaced.
    pub open spec fn with(self, source: PowerSource, profile: PowerProfile) -> TargetProfiles {
        match source {
            PowerSource::Mains => TargetProfiles { ac: profile, ..self },
            PowerSource::Battery => TargetProfiles { battery: profile, ..self },
        }
    }

    /// The settings after a pick; nothing for a place that is no choice.
    pub open spec fn after_pick(self, source: PowerSource, selected: int) -> Option<TargetProfiles> {
        if 0 <= selected < profile_choices(source).len() {
            Some(self.with(source, profile_choices(source)[selected]))
        } else {
            None
        }
    }

    /// Picks a profile for a power source by its place among the choices. A
    /// place that is no choice changes nothing. Otherwise the answer is the
    /// pair of profiles, for mains and battery, to tell the profile switcher.
    pub fn pick(&mut self, source: PowerSource, selected: usize) -> (targets: Option<
        (PowerProfile, PowerProfile),
    >)
        ensures
            if selected < profile_choices(source).len() {
                &&& *final(self) == old(self).with(
                    source,
                    profile_choices(source)[selected as int],
                )
                &&& targets == Some((final(self).ac, final(self).battery))
            } else {
                *final(self) == *old(self) && targets is None
            },
            match targets {
                Some(told) => old(self).after_pick(source, selected as int) == Some(*final(self))
                    && told == (final(self).ac, final(self).battery),
                None => old(self).after_pick(source, selected as int) is None,
            },
    {
        match picked_choice(source, selected) {
            Some(profile) => {
                match source {
                    PowerSource::Mains => {
                        self.ac = profile;
                    },
                    PowerSource::Battery => {
                        self.battery = profile;
                    },
                }
                Some((self.ac, self.battery))
            },
            None => None,
        }
    }
}

impl AppConfig {
    /// Saves another language.
    pub fn set_language(&mut self, lang: Lang)
        ensures
            final(self).language matches Some(text) && text@ == code(lang),
            *final(self) == (AppConfig { language: final(self).language, ..*old(self) }),
    {
        self.language = Some(lang_code(lang).to_owned());
    }
}

/// What Eco mode brings back when it is switched off is what it found when it
/// was switched on, and afterwards nothing is left of it. A failure to switch it
/// on changes nothing.
pub proof fn eco_brings_back_what_it_found(
    mode: EcoMode,
    was: (Option<u32>, Option<u32>),
    error: String,
)
    ensures
        mode.after_on(Ok(was)).asks(false) == (EcoRequest::Disable {
            volume: was.0,
            brightness: was.1,
        }),
        mode.after_on(Ok(was)).after_off(true) == (EcoMode {
            enabled: false,
            saved_volume_pct: None,
            saved_brightness_pct: None,
        }),
        mode.after_on(Err(error)) == mode,
{
}

/// One thing that the fans are told again when the application starts, because
/// the controller forgets it across a restart.
#[derive(Debug, Clone, Copy, PartialEq, Eq, Structural)]
pub enum StartupFanStep {
    /// Switch CoolBoost.
    CoolBoost(bool),
    /// Set a fan mode.
    Mode(FanMode),
}

/// The mode that a saved word stands for.
pub open spec fn saved_mode(word: Option<String>) -> Option<FanMode> {
    match word {
        Some(text) => if text@ == "max"@ {
            Some(FanMode::Max)
        } else if text@ == "auto"@ {
            Some(FanMode::Auto)
        } else {
            None
        },
        None => None,
    }
}

impl FanSettings {
    /// What the fans are told again at the start, in order: CoolBoost where it
    /// was on, then the mode that the saved word stands for.
    pub open spec fn startup_steps(self) -> Seq<StartupFanStep> {
        (if self.coolboost_enabled {
            seq![StartupFanStep::CoolBoost(true)]
        } else {
            seq![]
        }) + (match saved_mode(self.mode) {
            Some(mode) => seq![StartupFanStep::Mode(mode)],
            None => seq![],
        })
    }

    /// What the fans are told again at the start, if anything: only on a
    /// machine with access to the controller, and only where CoolBoost is on
    /// or a mode was saved. A saved word that is no mode sets none.
    pub fn startup_work(&self, ec: bool) -> (work: Option<Vec<StartupFanStep>>)
        ensures
            work is Some <==> ec && (self.coolboost_enabled || self.mode is Some),
            work matches Some(steps) ==> steps@ == self.startup_steps(),
    {
        if !(ec && (self.coolboost_enabled || self.mode.is_some())) {
            return None;
        }
        let mode = match &self.mode {
            Some(text) => if same_text(text.as_str(), "max") {
                Some(FanMode::Max)
            } else if same_text(text.as_str(), "auto") {
                Some(FanMode::Auto)
            } else {
                None
            },
            None => None,
        };
        let mut steps: Vec<StartupFanStep> = Vec::new();
        if self.coolboost_enabled {
            steps.push(StartupFanStep::CoolBoost(true));
        }
        if let Some(mode) = mode {
            steps.push(StartupFanStep::Mode(mode));
        }
        assert(steps@ =~= self.startup_steps());
        Some(steps)
    }
}

/// Starting up never asks for free percentages, which would be refused, and
/// only ever switches CoolBoost on, before anything else.
pub proof fn startup_sets_presets_only(settings: FanSettings, i: int)
    requires
        0 <= i < settings.startup_steps().len(),
    ensures
        settings.startup_steps()[i] matches StartupFanStep::Mode(mode) ==> mode == FanMode::Auto
            || mode == FanMode::Max,
        settings.startup_steps()[i] matches StartupFanStep::CoolBoost(on) ==> on && i == 0,
{
}

/// A switched setting has the value it was switched to, and every other setting
/// the value it had.
pub proof fn a_switch_touches_one_setting(
    before: Switches,
    after: Switches,
    setting: Setting,
    other: Setting,
    active: bool,
)
    requires
        after.switched_from(before, setting, active),
    ensures
        after.on(setting) == active,
        other != setting ==> after.on(other) == before.on(other),
{
    assert(after.on(setting) == active);
    if other != setting {
        assert(after.on(other) == before.on(other));
    }
}

/// Whoever is told of a switch is told the value that the setting has after it,
/// on or off; each effect belongs to its own setting, and the settings that
/// nobody is told of are five.
pub proof fn whoever_is_told_is_told_the_truth(
    before: Switches,
    after: Switches,
    setting: Setting,
    active: bool,
)
    requires
        after.switched_from(before, setting, active),
    ensures
        match effect_of(setting, active) {
            SettingEffect::Autostart(on) => setting == Setting::StartOnBoot && on
                == after.start_on_boot,
            SettingEffect::TempAlerts(on) => setting == Setting::TempAlerts && on
                == after.temp_alerts,
            SettingEffect::AutoProfile(on) => setting == Setting::AutoProfileAc && on
                == after.auto_profile_ac,
            SettingEffect::DebugLogging(on) => setting == Setting::DebugLogging && on
                == after.debug_logging,
            SettingEffect::KeepFanAuto(on) => setting == Setting::KeepFanAutoInPerformance && on
                == after.keep_fan_auto_in_performance,
            SettingEffect::ManageCpuPower(on) => setting == Setting::ManageCpuPower && on
                == after.manage_cpu_power,
            SettingEffect::AiControls(on) => setting == Setting::AiAssistant && on
                == after.ai_assistant_enabled,
            SettingEffect::BatteryLimiter(on) => setting == Setting::BatteryLimiter && on
                == after.battery_limiter,
            SettingEffect::Nothing => setting == Setting::MinimizeOnClose || setting
                == Setting::AutoApplyOnStart || setting == Setting::CustomIcons || setting
                == Setting::KeepDefaultThemeColor || setting == Setting::AiAutoApply,
        },
        effect_of(setting, true) != effect_of(setting, false) || effect_of(setting, active)
            == SettingEffect::Nothing,
{
    assert(after.on(setting) == active);
}

/// Eco mode asks for its one thing on the way in, and on the way out for exactly
/// what is kept. It is on after a success and as it was after a failure. A way
/// out, good or bad, keeps nothing.
pub proof fn eco_follows_the_machine(mode: EcoMode, was: (Option<u32>, Option<u32>), ok: bool)
    ensures
        mode.asks(true) == EcoRequest::Enable,
        mode.asks(false) matches EcoRequest::Disable { volume, brightness } && volume
            == mode.saved_volume_pct && brightness == mode.saved_brightness_pct,
        mode.after_on(Ok(was)).enabled,
        mode.after_off(ok).enabled <==> mode.enabled && !ok,
        mode.after_off(ok).asks(false) == (EcoRequest::Disable { volume: None, brightness: None }),
{
}

/// Picking a profile for one power source leaves the other's alone.
pub proof fn picking_touches_one_source(targets: TargetProfiles, profile: PowerProfile)
    ensures
        targets.with(PowerSource::Mains, profile).ac == profile,
        targets.with(PowerSource::Mains, profile).battery == targets.battery,
        targets.with(PowerSource::Battery, profile).battery == profile,
        targets.with(PowerSource::Battery, profile).ac == targets.ac,
        targets.of(PowerSource::Mains) == targets.ac,
        targets.of(PowerSource::Battery) == targets.battery,
{
}

/// What was saved about the fans is what they are told again: CoolBoost exactly
/// where it was on, the mode exactly where the saved word is that of one, and
/// CoolBoost before the mode.
pub proof fn what_was_saved_is_told_again(settings: FanSettings)
    ensures
        ({
            let steps = settings.startup_steps();
            let max = settings.mode matches Some(word) && word@ == "max"@;
            let auto = settings.mode matches Some(word) && word@ == "auto"@;
            &&& settings.coolboost_enabled ==> steps.len() > 0 && steps[0]
                == StartupFanStep::CoolBoost(true)
            &&& max ==> steps.len() > 0 && steps.last() == StartupFanStep::Mode(FanMode::Max)
            &&& auto ==> steps.len() > 0 && steps.last() == StartupFanStep::Mode(FanMode::Auto)
            &&& steps.len() == (if settings.coolboost_enabled {
                1int
            } else {
                0
            }) + (if max || auto {
                1int
            } else {
                0
            })
        }),
{
    reveal_strlit("max");
    reveal_strlit("auto");
    assert("max"@.len() != "auto"@.len());
}

/// Every place of the list of a power source can be picked, and no other. The
/// profile there becomes that of the power source, whatever it was before, and
/// the other power source keeps its own.
pub proof fn every_choice_can_be_picked(targets: TargetProfiles, source: PowerSource, selected: int)
    ensures
        targets.after_pick(source, selected) is Some <==> 0 <= selected < if source
            == PowerSource::Battery {
            5int
        } else {
            4
        },
        targets.after_pick(source, selected) matches Some(after) ==> {
            &&& after.of(source) == profile_choices(source)[selected]
            &&& source == PowerSource::Mains ==> after.battery == targets.battery && after.ac
                == after.of(source)
            &&& source == PowerSource::Battery ==> after.ac == targets.ac && after.battery
                == after.of(source)
        },
{
}

} // verus!
