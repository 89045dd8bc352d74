//! Power profiles and what follows them: the colour of the application, the
//! Turbo key, and the profiles that can be chosen per power source.

use vstd::prelude::*;

verus! {

/// The power profiles.
#[derive(Debug, Clone, Copy, PartialEq, Eq, Structural)]
pub enum PowerProfile {
    Eco,
    Quiet,
    Balanced,
    Performance,
    Turbo,
}

/// Whether the log gives "Max" as the fans' word for a profile, and not "Auto".
/// It is the word that is logged, not what the fans do: a setting can keep them
/// on Auto in every profile.
pub open spec fn fans_at_max(profile: PowerProfile) -> bool {
    profile == PowerProfile::Turbo || profile == PowerProfile::Performance
}

/// Whether the log gives "Max" as the fans' word for a profile, and not "Auto".
/// It is the word that is logged, not what the fans do.
pub fn profile_runs_fans_at_max(profile: PowerProfile) -> (max: bool)
    ensures
        max == fans_at_max(profile),
{
    profile == PowerProfile::Turbo || profile == PowerProfile::Performance
}

/// Follows the active profile with the application's colour.
#[derive(Debug, Clone, Copy, PartialEq, Eq, Structural)]
pub struct ThemeWatcher {
    /// The profile and the "keep the default colour" setting last acted on.
    pub last_profile: Option<PowerProfile>,
    pub last_keep_default: bool,
}

/// What an observation calls for.
#[derive(Debug, Clone, Copy, PartialEq, Eq, Structural)]
pub enum ThemeChange {
    Unchanged,
    /// Apply the colour of this profile, or the default colour.
    Apply(Option<PowerProfile>),
}

impl ThemeWatcher {
    /// What an observation calls for: something only where the profile or the
    /// setting differs from the last time.
    pub open spec fn change(self, now: Option<PowerProfile>, keep_default: bool) -> ThemeChange {
        if now == self.last_profile && keep_default == self.last_keep_default {
            ThemeChange::Unchanged
        } else if keep_default {
            ThemeChange::Apply(None)
        } else {
            ThemeChange::Apply(now)
        }
    }

    /// A watcher at launch: no profile, colours follow the profile.
    pub fn new() -> (watcher: ThemeWatcher)
        ensures
            watcher.last_profile is None,
            !watcher.last_keep_default,
    {
        ThemeWatcher { last_profile: None, last_keep_default: false }
    }

    /// Takes one observation.
    pub fn observe(&mut self, now: Option<PowerProfile>, keep_default: bool) -> (change:
        ThemeChange)
        ensures
            change == old(self).change(now, keep_default),
            final(self).last_profile == now,
            final(self).last_keep_default == keep_default,
    {
        let same_profile = match (now, self.last_profile) {
            (Some(a), Some(b)) => a == b,
            (None, None) => true,
            _ => false,
        };
        if same_profile && keep_default == self.last_keep_default {
            return ThemeChange::Unchanged;
        }
        self.last_profile = now;
        self.last_keep_default = keep_default;
        if keep_default {
            ThemeChange::Apply(None)
        } else {
            ThemeChange::Apply(now)
        }
    }
}

/// Seeing the same thing twice in a row changes nothing the second time.
pub proof fn the_same_sight_twice_changes_nothing(
    seen: ThemeWatcher,
    now: Option<PowerProfile>,
    keep_default: bool,
)
    requires
        seen.last_profile == now,
        seen.last_keep_default == keep_default,
    ensures
        seen.change(now, keep_default) == ThemeChange::Unchanged,
{
}

/// Flipping the setting takes effect at once, with the profile unchanged: to
/// the default colour one way, back to the profile's colour the other way.
pub proof fn flipping_the_setting_recolours_at_once(seen: ThemeWatcher, keep_default: bool)
    requires
        seen.last_keep_default != keep_default,
    ensures
        seen.change(seen.last_profile, keep_default) == ThemeChange::Apply(
            if keep_default {
                None
            } else {
                seen.last_profile
            },
        ),
{
}

/// A profile that is active at launch is shown at once.
pub proof fn an_active_profile_shows_at_launch(watcher: ThemeWatcher, profile: PowerProfile)
    requires
        watcher.last_profile is None,
        !watcher.last_keep_default,
    ensures
        watcher.change(Some(profile), false) == ThemeChange::Apply(Some(profile)),
        watcher.change(Some(profile), true) == ThemeChange::Apply(None),
{
}

/// Follows the Turbo key on the keyboard.
#[derive(Debug, Clone, Copy, PartialEq, Eq, Structural)]
pub struct TurboKey {
    /// The last position of the key, once it has been read.
    pub last: Option<bool>,
    /// What to go back to on release.
    pub before: Option<PowerProfile>,
}

/// What a look at the key calls for.
#[derive(Debug, Clone, Copy, PartialEq, Eq, Structural)]
pub enum KeyEdge {
    Nothing,
    /// Remember the profile in force, then force Turbo.
    Pressed,
    /// Go back to this profile.
    Released(PowerProfile),
}

impl TurboKey {
    /// What a look at the key calls for: something only on a transition.
    pub open spec fn edge(self, reading: Option<bool>) -> KeyEdge {
        match (reading, self.last) {
            (Some(now), Some(last)) => if now == last {
                KeyEdge::Nothing
            } else if now {
                KeyEdge::Pressed
            } else {
                KeyEdge::Released(
                    match self.before {
                        Some(profile) => profile,
                        None => PowerProfile::Balanced,
                    },
                )
            },
            _ => KeyEdge::Nothing,
        }
    }

    /// The key after a look at it; a machine without the key shows nothing.
    pub open spec fn seen(self, reading: Option<bool>) -> TurboKey {
        match reading {
            Some(now) => TurboKey { last: Some(now), ..self },
            None => self,
        }
    }

    /// A key that nobody has looked at yet.
    pub fn new() -> (key: TurboKey)
        ensures
            key.last is None,
            key.before is None,
    {
        TurboKey { last: None, before: None }
    }

    /// Looks at the key.
    pub fn poll(&mut self, reading: Option<bool>) -> (edge: KeyEdge)
        ensures
            edge == old(self).edge(reading),
            *final(self) == old(self).seen(reading),
    {
        let now = match reading {
            Some(now) => now,
            None => return KeyEdge::Nothing,
        };
        let last = self.last;
        self.last = Some(now);
        match last {
            Some(earlier) => if now == earlier {
                KeyEdge::Nothing
            } else if now {
                KeyEdge::Pressed
            } else {
                match self.before {
                    Some(profile) => KeyEdge::Released(profile),
                    None => KeyEdge::Released(PowerProfile::Balanced),
                }
            },
            None => KeyEdge::Nothing,
        }
    }

    /// The key was pressed while `coherent` was in force, or while no single
    /// profile was. Gives the profile to force.
    pub fn pressed(&mut self, coherent: Option<PowerProfile>) -> (forced: PowerProfile)
        ensures
            forced == PowerProfile::Turbo,
            *final(self) == (TurboKey { before: coherent, ..*old(self) }),
    {
        self.before = coherent;
        PowerProfile::Turbo
    }
}

/// The key after a run of looks at it.
pub open spec fn key_after(key: TurboKey, readings: Seq<Option<bool>>) -> TurboKey
    decreases readings.len(),
{
    if readings.len() == 0 {
        key
    } else {
        key_after(key, readings.drop_last()).seen(readings.last())
    }
}

/// The first position that is read is never acted on, whatever it is, and a
/// machine without the key never calls for anything.
pub proof fn only_transitions_count(key: TurboKey, reading: Option<bool>)
    ensures
        key.last is None ==> key.edge(reading) == KeyEdge::Nothing,
        reading is None ==> key.edge(reading) == KeyEdge::Nothing && key.seen(reading) == key,
        reading == key.last ==> key.edge(reading) == KeyEdge::Nothing,
{
}

/// Releasing the key goes back to the profile that was in force when it was
/// pressed, however long it was held and whatever was in force before an
/// earlier press. Where no single profile was in force it goes to Balanced.
pub proof fn release_restores_what_was_pressed_over(
    up: TurboKey,
    coherent: Option<PowerProfile>,
    held: Seq<Option<bool>>,
)
    requires
        up.last == Some(false),
        forall|i: int| 0 <= i < held.len() ==> #[trigger] held[i] != Some(false),
    ensures
        up.edge(Some(true)) == KeyEdge::Pressed,
        ({
            let down = TurboKey { before: coherent, ..up.seen(Some(true)) };
            key_after(down, held) == down && key_after(down, held).edge(Some(false))
                == KeyEdge::Released(
                match coherent {
                    Some(profile) => profile,
                    None => PowerProfile::Balanced,
                },
            )
        }),
    decreases held.len(),
{
    if held.len() > 0 {
        release_restores_what_was_pressed_over(up, coherent, held.drop_last());
        assert(held[held.len() - 1] != Some(false));
        assert(held.last() is None || held.last() == Some(true));
    }
}

/// Where the machine draws its power.
#[derive(Debug, Clone, Copy, PartialEq, Eq, Structural)]
pub enum PowerSource {
    Mains,
    Battery,
}

/// The profiles that can be chosen for a power source, in the order shown.
/// Eco is for the battery only.
pub open spec fn profile_choices(source: PowerSource) -> Seq<PowerProfile> {
    let common = seq![
        PowerProfile::Quiet,
        PowerProfile::Balanced,
        PowerProfile::Performance,
        PowerProfile::Turbo,
    ];
    match source {
        PowerSource::Mains => common,
        PowerSource::Battery => common.push(PowerProfile::Eco),
    }
}

/// The place of a profile among the choices; the place of Balanced for one
/// that is not among them.
pub open spec fn shown_choice(source: PowerSource, profile: PowerProfile) -> int {
    if profile_choices(source).contains(profile) {
        profile_choices(source).index_of(profile)
    } else {
        1
    }
}

/// The choices for a power source, in the order shown.
pub fn choices(source: PowerSource) -> (list: Vec<PowerProfile>)
    ensures
        list@ == profile_choices(source),
{
    let mut list: Vec<PowerProfile> = Vec::new();
    list.push(PowerProfile::Quiet);
    list.push(PowerProfile::Balanced);
    list.push(PowerProfile::Performance);
    list.push(PowerProfile::Turbo);
    if source == PowerSource::Battery {
        list.push(PowerProfile::Eco);
    }
    assert(list@ =~= profile_choices(source));
    list
}

/// The key of a profile's translated name.
pub fn profile_key(profile: PowerProfile) -> (key: &'static str)
    ensures
        key@ == match profile {
            PowerProfile::Eco => "eco"@,
            PowerProfile::Quiet => "quiet"@,
            PowerProfile::Balanced => "balanced"@,
            PowerProfile::Performance => "performance"@,
            PowerProfile::Turbo => "turbo"@,
        },
{
    match profile {
        PowerProfile::Eco => "eco",
        PowerProfile::Quiet => "quiet",
        PowerProfile::Balanced => "balanced",
        PowerProfile::Performance => "performance",
        PowerProfile::Turbo => "turbo",
    }
}

/// The choice to show as selected for the saved profile.
pub fn selected_choice(source: PowerSource, saved: PowerProfile) -> (selected: usize)
    ensures
        selected == shown_choice(source, saved),
{
    let list = choices(source);
    let mut i: usize = 0;
    while i < list.len()
        invariant
            i <= list.len(),
            list@ == profile_choices(source),
            forall|k: int| 0 <= k < i ==> list@[k] != saved,
        decreases list.len() - i,
    {
        if list[i] == saved {
            proof {
                lemma_choices_differ(source);
                assert(profile_choices(source)[i as int] == saved);
                let k = profile_choices(source).index_of(saved);
                assert(0 <= k < list@.len() && profile_choices(source)[k] == saved);
            }
            return i;
        }
        i = i + 1;
    }
    1
}

/// The profile that was picked, or nothing for a place that is no choice.
pub fn picked_choice(source: PowerSource, selected: usize) -> (picked: Option<PowerProfile>)
    ensures
        picked == if selected < profile_choices(source).len() {
            Some(profile_choices(source)[selected as int])
        } else {
            None
        },
{
    let list = choices(source);
    if selected < list.len() {
        Some(list[selected])
    } else {
        None
    }
}

/// No profile is offered twice.
proof fn lemma_choices_differ(source: PowerSource)
    ensures
        profile_choices(source).no_duplicates(),
{
}

/// The choice shown for a saved profile, picked again, is that profile; what
/// cannot be shown shows as Balanced. Only Eco on mains power cannot.
pub proof fn the_shown_choice_is_the_saved_one(source: PowerSource, saved: PowerProfile)
    ensures
        0 <= shown_choice(source, saved) < profile_choices(source).len(),
        profile_choices(source)[shown_choice(source, saved)] == if source == PowerSource::Mains
            && saved == PowerProfile::Eco {
            PowerProfile::Balanced
        } else {
            saved
        },
        !profile_choices(PowerSource::Mains).contains(PowerProfile::Eco),
{
    let list = profile_choices(source);
    assert(list[0] == PowerProfile::Quiet && list[1] == PowerProfile::Balanced && list[2]
        == PowerProfile::Performance && list[3] == PowerProfile::Turbo);
    if source == PowerSource::Battery {
        assert(list[4] == PowerProfile::Eco);
    }
    if list.contains(saved) {
        let k = list.index_of(saved);
        assert(0 <= k < list.len() && list[k] == saved);
    }
}

/// Nothing is done about an observation exactly when the profile and the
/// setting are both those of the last one. Otherwise the colour that is applied
/// is the default one with the setting on, and that of the observed profile with
/// the setting off, also where another profile's colour was on before.
pub proof fn every_difference_recolours(
    watcher: ThemeWatcher,
    now: Option<PowerProfile>,
    keep_default: bool,
)
    ensures
        watcher.change(now, keep_default) == ThemeChange::Unchanged <==> watcher.last_profile == now
            && watcher.last_keep_default == keep_default,
        watcher.change(now, keep_default) matches ThemeChange::Apply(colour) ==> colour == (
        if keep_default {
            None
        } else {
            now
        }),
{
}

/// The colour that the application wears after a run of observations, each a
/// profile and the setting: what was applied last, the default one at first.
pub open spec fn colour_after(
    start: ThemeWatcher,
    seen: Seq<(Option<PowerProfile>, bool)>,
) -> Option<PowerProfile>
    decreases seen.len(),
{
    if seen.len() == 0 {
        None
    } else {
        let earlier = seen.drop_last();
        let watcher = if earlier.len() == 0 {
            start
        } else {
            ThemeWatcher {
                last_profile: earlier.last().0,
                last_keep_default: earlier.last().1,
            }
        };
        match watcher.change(seen.last().0, seen.last().1) {
            ThemeChange::Unchanged => colour_after(start, earlier),
            ThemeChange::Apply(colour) => colour,
        }
    }
}

/// After any run of observations the application wears the colour that the last
/// of them calls for: the default one with the setting on, otherwise that of the
/// profile.
pub proof fn the_colour_is_the_one_called_for(
    start: ThemeWatcher,
    seen: Seq<(Option<PowerProfile>, bool)>,
)
    requires
        start.last_profile is None,
        !start.last_keep_default,
        seen.len() > 0,
    ensures
        colour_after(start, seen) == if seen.last().1 {
            None
        } else {
            seen.last().0
        },
    decreases seen.len(),
{
    let earlier = seen.drop_last();
    if earlier.len() > 0 {
        the_colour_is_the_one_called_for(start, earlier);
    } else {
        assert(colour_after(start, earlier) is None);
    }
}

/// The key calls for Turbo exactly when it was up and is down, and for a return
/// exactly when it was down and is up: to the profile remembered, or to Balanced
/// where none is. A look at it remembers its position and nothing else.
pub proof fn every_transition_counts(key: TurboKey, reading: Option<bool>)
    ensures
        key.edge(reading) == KeyEdge::Pressed <==> key.last == Some(false) && reading == Some(true),
        key.edge(reading) is Released <==> key.last == Some(true) && reading == Some(false),
        key.edge(reading) matches KeyEdge::Released(profile) ==> (key.before matches Some(kept)
            ==> profile == kept) && (key.before is None ==> profile == PowerProfile::Balanced),
        key.seen(reading).before == key.before,
        key.seen(reading).last == if reading is Some {
            reading
        } else {
            key.last
        },
{
}

/// The log's word is "Max" for exactly two profiles.
pub proof fn the_logged_word(profile: PowerProfile)
    ensures
        fans_at_max(profile) <==> !(profile == PowerProfile::Eco || profile == PowerProfile::Quiet
            || profile == PowerProfile::Balanced),
{
}

/// The choices of the two power sources: the battery has those of the mains, in
/// the same places, and Eco after them; every profile can be chosen somewhere.
pub proof fn the_battery_adds_eco(profile: PowerProfile)
    ensures
        profile_choices(PowerSource::Battery) == profile_choices(PowerSource::Mains).push(
            PowerProfile::Eco,
        ),
        profile_choices(PowerSource::Mains).no_duplicates(),
        profile_choices(PowerSource::Mains).contains(profile) <==> profile != PowerProfile::Eco,
{
    let list = profile_choices(PowerSource::Mains);
    assert(list[0] == PowerProfile::Quiet && list[1] == PowerProfile::Balanced && list[2]
        == PowerProfile::Performance && list[3] == PowerProfile::Turbo);
}

} // verus!
