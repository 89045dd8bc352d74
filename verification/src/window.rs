//! The window itself: closing it, hiding it in the tray, and knowing whether
//! anybody can see it.

use vstd::prelude::*;

verus! {

/// What the rest of the application knows of the window.
#[derive(Debug, Clone, Copy, PartialEq, Eq, Structural)]
pub struct WindowFlags {
    pub visible: bool,
    /// The compositor's word that the window is not being shown.
    pub suspended: bool,
}

impl WindowFlags {
    /// Somebody may be looking: the window is not hidden, and the compositor
    /// does not say that it is not being shown.
    pub open spec fn shown(self) -> bool {
        self.visible && !self.suspended
    }

    /// Whether somebody may be looking. Animations run only then.
    pub fn is_shown(&self) -> (shown: bool)
        ensures
            shown == self.shown(),
    {
        self.visible && !self.suspended
    }
}

/// Reads the compositor's present answer into the flags. A toolkit too old to
/// know the property leaves them as they are.
pub fn sync_window_suspended(flags: &mut WindowFlags, property: Option<bool>)
    ensures
        final(flags).visible == old(flags).visible,
        final(flags).suspended == match property {
            Some(suspended) => suspended,
            None => old(flags).suspended,
        },
{
    if let Some(suspended) = property {
        flags.suspended = suspended;
    }
}

/// What a request to close the window comes to.
#[derive(Debug, Clone, Copy, PartialEq, Eq, Structural)]
pub enum CloseAction {
    /// Keep running in the tray; the window is not closed.
    HideToTray,
    Close,
}

/// What a request to close the window comes to, whoever makes it.
pub fn close_action(minimize_on_close: bool) -> (action: CloseAction)
    ensures
        action == if minimize_on_close {
            CloseAction::HideToTray
        } else {
            CloseAction::Close
        },
{
    if minimize_on_close {
        CloseAction::HideToTray
    } else {
        CloseAction::Close
    }
}

/// What keeps the application alive without a window.
#[derive(Debug, Clone, Copy, PartialEq, Eq, Structural)]
pub struct TrayState {
    /// The application is held open.
    pub held: bool,
    /// The tray helper, if there is one, and whether it has started.
    pub tray: Option<bool>,
}

/// What hiding the window calls for, besides starting the tray helper.
#[derive(Debug, Clone, Copy, PartialEq, Eq, Structural)]
pub struct HidePlan {
    /// Hold the application open.
    pub hold: bool,
    /// Start a new tray helper in place of the one there is, if any; otherwise
    /// the one there is gets started once more, which revives a dead one.
    pub new_tray: bool,
}

impl TrayState {
    /// What hiding the window calls for.
    pub open spec fn hide_plan(self) -> HidePlan {
        HidePlan { hold: !self.held, new_tray: self.tray != Some(true) }
    }

    /// The state with the application held open.
    pub open spec fn held_open(self) -> TrayState {
        TrayState { held: true, ..self }
    }

    /// The state once the helper, asked to start, has said whether it did.
    pub open spec fn with_tray(self, started: bool) -> TrayState {
        TrayState { tray: Some(started), ..self }
    }

    /// Nothing held and no helper.
    pub fn new() -> (state: TrayState)
        ensures
            !state.held,
            state.tray is None,
    {
        TrayState { held: false, tray: None }
    }

    /// Hides the window: it no longer counts as visible, and the application
    /// is held open from now on.
    pub fn hide_to_tray(&mut self, flags: &mut WindowFlags) -> (plan: HidePlan)
        ensures
            plan == old(self).hide_plan(),
            *final(self) == old(self).held_open(),
            *final(flags) == (WindowFlags { visible: false, ..*old(flags) }),
    {
        flags.visible = false;
        let hold = !self.held;
        self.held = true;
        let new_tray = match self.tray {
            Some(started) => !started,
            None => true,
        };
        HidePlan { hold, new_tray }
    }

    /// The helper was asked to start and said whether it did.
    pub fn tray_started(&mut self, started: bool)
        ensures
            *final(self) == old(self).with_tray(started),
    {
        self.tray = Some(started);
    }
}

/// The state after the window has been hidden several times, each time with
/// the helper's word on whether it started.
pub open spec fn after_hides(state: TrayState, starts: Seq<bool>) -> TrayState
    decreases starts.len(),
{
    if starts.len() == 0 {
        state
    } else {
        after_hides(state, starts.drop_last()).held_open().with_tray(starts.last())
    }
}

/// However often the window is hidden, the application is held open once, on
/// the first time, and a new tray helper takes the place of the old one only
/// where the old one did not start.
pub proof fn hiding_again_is_harmless(state: TrayState, starts: Seq<bool>)
    requires
        starts.len() > 0,
    ensures
        after_hides(state, starts).held,
        after_hides(state, starts).hide_plan() == (HidePlan {
            hold: false,
            new_tray: !starts.last(),
        }),
{
}

/// Hiding the window holds the application open where nothing holds it yet, and
/// starts a new tray helper unless there is one that has started. The helper's
/// word is kept, and nothing else changes.
pub proof fn what_hiding_calls_for(state: TrayState, started: bool)
    ensures
        state.hide_plan().hold <==> !state.held,
        state.tray is None ==> state.hide_plan().new_tray,
        state.tray matches Some(runs) ==> state.hide_plan().new_tray == !runs,
        state.held_open().held,
        state.held_open().tray == state.tray,
        state.with_tray(started).tray == Some(started),
        state.with_tray(started).held == state.held,
{
}

/// A window is looked at only while it is neither hidden nor suspended.
pub proof fn who_may_be_looking(flags: WindowFlags)
    ensures
        !flags.visible || flags.suspended ==> !flags.shown(),
        flags.visible && !flags.suspended ==> flags.shown(),
{
}

} // verus!
