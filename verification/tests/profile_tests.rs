use predator_sense::monitor::{AssistantMonitor, MinuteWork};
use predator_sense::profile::{
    choices, picked_choice, profile_key, profile_runs_fans_at_max, selected_choice, KeyEdge,
    PowerProfile, PowerSource, ThemeChange, ThemeWatcher, TurboKey,
};

const ALL: [PowerProfile; 5] = [
    PowerProfile::Eco,
    PowerProfile::Quiet,
    PowerProfile::Balanced,
    PowerProfile::Performance,
    PowerProfile::Turbo,
];

#[test]
fn a_profile_active_at_launch_is_shown_at_once() {
    let mut theme = ThemeWatcher::new();
    assert_eq!(
        theme.observe(Some(PowerProfile::Turbo), false),
        ThemeChange::Apply(Some(PowerProfile::Turbo))
    );
    assert_eq!(
        theme.observe(Some(PowerProfile::Turbo), false),
        ThemeChange::Unchanged
    );
}

#[test]
fn flipping_the_setting_recolours_at_once() {
    let mut theme = ThemeWatcher::new();
    theme.observe(Some(PowerProfile::Quiet), false);
    assert_eq!(
        theme.observe(Some(PowerProfile::Quiet), true),
        ThemeChange::Apply(None)
    );
    assert_eq!(
        theme.observe(Some(PowerProfile::Eco), true),
        ThemeChange::Apply(None)
    );
    assert_eq!(
        theme.observe(Some(PowerProfile::Eco), false),
        ThemeChange::Apply(Some(PowerProfile::Eco))
    );
    assert_eq!(theme.observe(None, false), ThemeChange::Apply(None));
}

#[test]
fn no_profile_at_launch_changes_nothing() {
    let mut theme = ThemeWatcher::new();
    assert_eq!(theme.observe(None, false), ThemeChange::Unchanged);
    assert_eq!(theme.observe(None, true), ThemeChange::Apply(None));
}

#[test]
fn the_first_position_of_the_key_is_not_acted_on() {
    for first in [true, false] {
        let mut key = TurboKey::new();
        assert_eq!(key.poll(None), KeyEdge::Nothing);
        assert_eq!(key.poll(Some(first)), KeyEdge::Nothing);
        assert_eq!(key.poll(Some(first)), KeyEdge::Nothing);
    }
}

#[test]
fn releasing_the_key_restores_the_profile() {
    let mut key = TurboKey::new();
    key.poll(Some(false));
    assert_eq!(key.poll(Some(true)), KeyEdge::Pressed);
    assert_eq!(key.pressed(Some(PowerProfile::Quiet)), PowerProfile::Turbo);
    assert_eq!(key.poll(Some(true)), KeyEdge::Nothing);
    assert_eq!(key.poll(None), KeyEdge::Nothing);
    assert_eq!(
        key.poll(Some(false)),
        KeyEdge::Released(PowerProfile::Quiet)
    );
    assert_eq!(key.poll(Some(true)), KeyEdge::Pressed);
    key.pressed(None);
    assert_eq!(
        key.poll(Some(false)),
        KeyEdge::Released(PowerProfile::Balanced)
    );
}

#[test]
fn a_key_that_was_down_at_launch_releases_to_balanced() {
    let mut key = TurboKey::new();
    key.poll(Some(true));
    assert_eq!(
        key.poll(Some(false)),
        KeyEdge::Released(PowerProfile::Balanced)
    );
}

#[test]
fn the_fast_profiles_run_the_fans_at_max() {
    let max: Vec<PowerProfile> = ALL
        .iter()
        .copied()
        .filter(|p| profile_runs_fans_at_max(*p))
        .collect();
    assert_eq!(max, vec![PowerProfile::Performance, PowerProfile::Turbo]);
}

#[test]
fn eco_is_for_the_battery_only() {
    let mains = choices(PowerSource::Mains);
    assert_eq!(
        mains,
        vec![
            PowerProfile::Quiet,
            PowerProfile::Balanced,
            PowerProfile::Performance,
            PowerProfile::Turbo
        ]
    );
    let battery = choices(PowerSource::Battery);
    assert_eq!(battery[..4], mains[..]);
    assert_eq!(battery[4], PowerProfile::Eco);
    assert_eq!(battery.len(), 5);
    assert_eq!(selected_choice(PowerSource::Mains, PowerProfile::Eco), 1);
}

#[test]
fn the_shown_choice_is_the_saved_one() {
    for source in [PowerSource::Mains, PowerSource::Battery] {
        for profile in choices(source) {
            let shown = selected_choice(source, profile);
            assert_eq!(picked_choice(source, shown), Some(profile));
        }
    }
    assert_eq!(picked_choice(PowerSource::Mains, 4), None);
    assert_eq!(picked_choice(PowerSource::Battery, 5), None);
    assert_eq!(picked_choice(PowerSource::Battery, usize::MAX), None);
}

#[test]
fn profiles_have_keys() {
    let keys: Vec<&str> = ALL.iter().map(|p| profile_key(*p)).collect();
    assert_eq!(
        keys,
        vec!["eco", "quiet", "balanced", "performance", "turbo"]
    );
}

#[test]
fn a_check_is_made_every_interval() {
    let mut monitor = AssistantMonitor::new();
    for minute in 1..=12 {
        let expected = if minute % 3 == 0 {
            MinuteWork::SnapshotAndCheck
        } else {
            MinuteWork::Snapshot
        };
        assert_eq!(monitor.minute(true, 3), expected);
    }
}

#[test]
fn an_interval_of_none_counts_as_one() {
    let mut monitor = AssistantMonitor::new();
    assert_eq!(monitor.minute(true, 0), MinuteWork::SnapshotAndCheck);
    assert_eq!(monitor.minute(true, 1), MinuteWork::SnapshotAndCheck);
    assert_eq!(monitor.minute(true, u32::MAX), MinuteWork::Snapshot);
}

#[test]
fn a_new_interval_takes_effect_with_the_next_minute() {
    let mut monitor = AssistantMonitor::new();
    for _ in 0..5 {
        assert_eq!(monitor.minute(true, 60), MinuteWork::Snapshot);
    }
    assert_eq!(monitor.minute(true, 2), MinuteWork::SnapshotAndCheck);
    assert_eq!(monitor.minute(true, 2), MinuteWork::Snapshot);
}

#[test]
fn switching_the_assistant_off_starts_afresh() {
    let mut monitor = AssistantMonitor::new();
    assert_eq!(monitor.minute(true, 2), MinuteWork::Snapshot);
    assert_eq!(monitor.minute(false, 2), MinuteWork::Nothing);
    assert_eq!(monitor.minute(true, 2), MinuteWork::Snapshot);
    assert_eq!(monitor.minute(true, 2), MinuteWork::SnapshotAndCheck);
}
