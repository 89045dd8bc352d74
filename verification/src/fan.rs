//! Firmware fan modes: what a change of mode sends, in which order, and what
//! the firmware's own report of its mode means.

use vstd::prelude::*;
use crate::helper::{HelperAction, HelperArgument, HelperCommand};
use crate::wake::{wake_after, wake_asks, wake_dynamic_fan_curve, wake_next, wake_request, ThermalReply, ThermalRequest, WakeStage};

verus! {

/// Fan control modes.
#[derive(Debug, Clone, Copy, PartialEq, Eq, Structural)]
pub enum FanMode {
    Auto,
    Max,
    /// CPU and GPU percent.
    Custom(u8, u8),
}

/// The modes that the firmware reports of itself.
#[derive(Debug, Clone, Copy, PartialEq, Eq, Structural)]
pub enum HelperFanMode {
    Automatic,
    Maximum,
}

/// What is known of the preset bytes on this model.
#[derive(Debug, Clone, Copy, PartialEq, Eq, Structural)]
pub enum FanPresetStatus {
    /// Checked on this model.
    Verified,
    /// No report either way.
    Unverified,
    /// Reported not to work on this model.
    KnownIncompatible,
}

/// Why a fan mode was not set.
#[derive(Debug)]
pub enum FanError {
    /// Free percentages are not sent to the firmware.
    CustomDisabled,
    /// This model's firmware disagrees with the preset bytes.
    EcIncompatible,
    /// The helper's own words.
    Helper(String),
}

/// Where a change of mode stands.
#[derive(Debug, Clone, Copy, PartialEq, Eq, Structural)]
pub enum FanModeStage {
    Write(HelperCommand),
    Wake(WakeStage),
    Done,
}

/// A change of fan mode on its way.
#[derive(Debug, Clone, Copy, PartialEq, Eq, Structural)]
pub struct FanModeChange {
    pub mode: FanMode,
    /// The preset bytes are unverified on this model: worth a remark.
    pub unverified: bool,
    pub stage: FanModeStage,
}

/// What a change of mode asks for.
#[derive(Debug, Clone, Copy, PartialEq, Eq, Structural)]
pub enum FanModeRequest {
    Helper(HelperCommand),
    Thermal(ThermalRequest),
}

impl FanError {
    /// The key of the translated message that explains the error, where the
    /// text is not the helper's own.
    pub fn message_key(&self) -> (key: Option<&'static str>)
        ensures
            self is CustomDisabled ==> (key matches Some(k) && k@ == "fan_note"@),
            self is EcIncompatible ==> (key matches Some(k) && k@ == "fan_ec_incompatible"@),
            self is Helper ==> key is None,
    {
        match self {
            FanError::CustomDisabled => Some("fan_note"),
            FanError::EcIncompatible => Some("fan_ec_incompatible"),
            FanError::Helper(_) => None,
        }
    }
}

/// The command that puts a preset in force.
pub open spec fn preset_command(action: HelperAction) -> HelperCommand {
    HelperCommand { action, argument: HelperArgument::Nothing }
}

/// What a change of mode begins with: its one write, or a refusal.
pub open spec fn change_begun(
    mode: FanMode,
    status: FanPresetStatus,
    begun: Result<FanModeChange, FanError>,
) -> bool {
    match mode {
        FanMode::Custom(_, _) => begun matches Err(e) && e is CustomDisabled,
        _ => if status == FanPresetStatus::KnownIncompatible {
            begun matches Err(e) && e is EcIncompatible
        } else {
            begun == Ok::<FanModeChange, FanError>(
                FanModeChange {
                    mode,
                    unverified: status == FanPresetStatus::Unverified,
                    stage: FanModeStage::Write(
                        preset_command(
                            if mode == FanMode::Auto {
                                HelperAction::FanAuto
                            } else {
                                HelperAction::FanMax
                            },
                        ),
                    ),
                },
            )
        },
    }
}

/// Begins a change of fan mode. `Auto` and `Max` are firmware presets; `Custom`
/// is refused for safety on every model, and the presets on a model that is
/// known to disagree with them. On a model without a report the preset is sent
/// all the same, and marked.
pub fn set_fan_mode(mode: FanMode, status: FanPresetStatus) -> (begun: Result<
    FanModeChange,
    FanError,
>)
    ensures
        change_begun(mode, status, begun),
{
    let action = match mode {
        FanMode::Auto => HelperAction::FanAuto,
        FanMode::Max => HelperAction::FanMax,
        FanMode::Custom(_, _) => return Err(FanError::CustomDisabled),
    };
    let unverified = match status {
        FanPresetStatus::KnownIncompatible => return Err(FanError::EcIncompatible),
        FanPresetStatus::Unverified => true,
        FanPresetStatus::Verified => false,
    };
    let command = HelperCommand { action, argument: HelperArgument::Nothing };
    Ok(FanModeChange { mode, unverified, stage: FanModeStage::Write(command) })
}

impl FanModeChange {
    /// What the change asks for now.
    pub open spec fn asks(self) -> Option<FanModeRequest> {
        match self.stage {
            FanModeStage::Write(command) => Some(FanModeRequest::Helper(command)),
            FanModeStage::Wake(stage) => match wake_asks(stage) {
                Some(request) => Some(FanModeRequest::Thermal(request)),
                None => None,
            },
            FanModeStage::Done => None,
        }
    }

    /// The change after the helper's reply to its write. Only `Auto` goes on to
    /// wake the firmware's curve: `Max` is meant to sit at its setpoint.
    pub open spec fn after_helper(self, ok: bool) -> FanModeChange {
        match self.stage {
            FanModeStage::Write(_) => FanModeChange {
                stage: if ok && self.mode == FanMode::Auto {
                    FanModeStage::Wake(WakeStage::AskAvailable)
                } else {
                    FanModeStage::Done
                },
                ..self
            },
            _ => self,
        }
    }

    /// The change after a reply about the thermal profile.
    pub open spec fn after_thermal(self, reply: ThermalReply) -> FanModeChange {
        match self.stage {
            FanModeStage::Wake(stage) => FanModeChange {
                stage: FanModeStage::Wake(wake_next(stage, reply)),
                ..self
            },
            _ => self,
        }
    }

    /// The line of the log about preset bytes that are unverified on a model.
    pub open spec fn remark_line(self, model: Seq<char>) -> Option<Seq<char>> {
        if self.unverified {
            Some(
                "fan preset bytes are unverified on this model ("@ + model
                    + "); sending the PH315-54 values anyway"@,
            )
        } else {
            None
        }
    }

    /// The line of the log that the change begins with, if it calls for one.
    pub fn remark(&self, model: &str) -> (line: Option<String>)
        ensures
            match line {
                Some(text) => self.remark_line(model@) == Some(text@),
                None => self.remark_line(model@) is None,
            },
    {
        if !self.unverified {
            return None;
        }
        let mut line = "fan preset bytes are unverified on this model (".to_owned();
        line.append(model);
        line.append("); sending the PH315-54 values anyway");
        Some(line)
    }

    /// What the change asks for now; nothing once it is over.
    pub fn request(&self) -> (request: Option<FanModeRequest>)
        ensures
            request == self.asks(),
    {
        match self.stage {
            FanModeStage::Write(command) => Some(FanModeRequest::Helper(command)),
            FanModeStage::Wake(stage) => match wake_request(stage) {
                Some(request) => Some(FanModeRequest::Thermal(request)),
                None => None,
            },
            FanModeStage::Done => None,
        }
    }

    /// Takes the helper's reply. An error while the write is under way is the
    /// error of the whole change, in the helper's words; nothing else that
    /// follows can fail it.
    pub fn helper_replied(&mut self, reply: Result<(), String>) -> (outcome: Result<(), FanError>)
        ensures
            *final(self) == old(self).after_helper(reply is Ok),
            match reply {
                Err(words) if old(self).stage is Write => outcome == Err::<(), FanError>(
                    FanError::Helper(words),
                ),
                _ => outcome is Ok,
            },
    {
        match self.stage {
            FanModeStage::Write(_) => match reply {
                Ok(_) => {
                    if self.mode == FanMode::Auto {
                        self.stage = FanModeStage::Wake(WakeStage::AskAvailable);
                    } else {
                        self.stage = FanModeStage::Done;
                    }
                    Ok(())
                },
                Err(words) => {
                    self.stage = FanModeStage::Done;
                    Err(FanError::Helper(words))
                },
            },
            _ => Ok(()),
        }
    }

    /// Takes a reply about the thermal profile.
    pub fn thermal_replied(&mut self, reply: ThermalReply)
        ensures
            *final(self) == old(self).after_thermal(reply),
    {
        match self.stage {
            FanModeStage::Wake(stage) => {
                self.stage = FanModeStage::Wake(wake_dynamic_fan_curve(stage, reply));
            },
            _ => {},
        }
    }
}

/// The mode that the firmware's own report means; nothing where it could not
/// be read or understood.
pub open spec fn mode_read(report: Option<HelperFanMode>) -> Option<FanMode> {
    match report {
        Some(HelperFanMode::Automatic) => Some(FanMode::Auto),
        Some(HelperFanMode::Maximum) => Some(FanMode::Max),
        None => None,
    }
}

/// The mode that the firmware's own report means. Reading it back is what notices the mode key on the
/// keyboard, which changes the mode behind the application's back.
pub fn get_fan_mode(report: Option<HelperFanMode>) -> (mode: Option<FanMode>)
    ensures
        mode == mode_read(report),
{
    match report {
        Some(HelperFanMode::Automatic) => Some(FanMode::Auto),
        Some(HelperFanMode::Maximum) => Some(FanMode::Max),
        None => None,
    }
}

/// A reply that a change of mode may get.
pub enum FanModeEvent {
    Helper(bool),
    Thermal(ThermalReply),
}

/// The change after one event.
pub open spec fn fan_mode_next(change: FanModeChange, event: FanModeEvent) -> FanModeChange {
    match event {
        FanModeEvent::Helper(ok) => change.after_helper(ok),
        FanModeEvent::Thermal(reply) => change.after_thermal(reply),
    }
}

/// The change after a run of events.
pub open spec fn fan_mode_after(change: FanModeChange, events: Seq<FanModeEvent>) -> FanModeChange
    decreases events.len(),
{
    if events.len() == 0 {
        change
    } else {
        fan_mode_next(fan_mode_after(change, events.drop_last()), events.last())
    }
}

/// The stage of a change once it has left its write behind tells its mode.
proof fn lemma_wake_needs_the_write(start: FanModeChange, events: Seq<FanModeEvent>)
    requires
        start.stage is Write,
    ensures
        ({
            let now = fan_mode_after(start, events);
            &&& now.mode == start.mode
            &&& (now.stage is Write ==> now == start)
            &&& (now.stage is Wake ==> start.mode == FanMode::Auto && exists|i: int|
                0 <= i < events.len() && #[trigger] events[i] == FanModeEvent::Helper(true))
        }),
    decreases events.len(),
{
    if events.len() > 0 {
        let before = events.drop_last();
        lemma_wake_needs_the_write(start, before);
        let earlier = fan_mode_after(start, before);
        if fan_mode_after(start, events).stage is Wake {
            if earlier.stage is Wake {
                let i = choose|i: int|
                    0 <= i < before.len() && #[trigger] before[i] == FanModeEvent::Helper(true);
                assert(events[i] == FanModeEvent::Helper(true));
            } else {
                assert(events[events.len() - 1] == FanModeEvent::Helper(true));
            }
        }
    }
}

/// The thermal profile is touched in `Auto` only, and only after the write of
/// the preset has succeeded: the other way round the preset would overwrite
/// the curve that was just woken.
pub proof fn the_preset_goes_first(
    mode: FanMode,
    status: FanPresetStatus,
    change: FanModeChange,
    events: Seq<FanModeEvent>,
)
    requires
        change_begun(mode, status, Ok(change)),
    ensures
        fan_mode_after(change, events).asks() matches Some(request) ==> match request {
            FanModeRequest::Helper(command) => command == preset_command(
                if mode == FanMode::Auto {
                    HelperAction::FanAuto
                } else {
                    HelperAction::FanMax
                },
            ),
            FanModeRequest::Thermal(_) => mode == FanMode::Auto && exists|i: int|
                0 <= i < events.len() && #[trigger] events[i] == FanModeEvent::Helper(true),
        },
{
    lemma_wake_needs_the_write(change, events);
}

/// Once the preset of `Auto` is written, the rest of the change is the bounce
/// of the thermal profile, reply for reply.
pub proof fn auto_goes_on_with_the_bounce(
    change: FanModeChange,
    replies: Seq<ThermalReply>,
    events: Seq<FanModeEvent>,
)
    requires
        change.mode == FanMode::Auto,
        change.stage is Write,
        events.len() == replies.len(),
        forall|i: int|
            0 <= i < events.len() ==> #[trigger] events[i] == FanModeEvent::Thermal(replies[i]),
    ensures
        fan_mode_after(change.after_helper(true), events).stage == FanModeStage::Wake(
            wake_after(WakeStage::AskAvailable, replies),
        ),
    decreases events.len(),
{
    if events.len() > 0 {
        assert(events[events.len() - 1] == FanModeEvent::Thermal(replies[replies.len() - 1]));
        auto_goes_on_with_the_bounce(change, replies.drop_last(), events.drop_last());
    }
}

/// What the firmware reports once it has taken a preset.
pub open spec fn preset_report(action: HelperAction) -> Option<HelperFanMode> {
    match action {
        HelperAction::FanAuto => Some(HelperFanMode::Automatic),
        HelperAction::FanMax => Some(HelperFanMode::Maximum),
        _ => None,
    }
}

/// What a firmware that reports the preset last sent to it reports after a run
/// of events, given what it reported before and nothing else that changes its
/// mode: a write that succeeds is a preset sent.
pub open spec fn report_after(
    before: Option<HelperFanMode>,
    change: FanModeChange,
    events: Seq<FanModeEvent>,
) -> Option<HelperFanMode>
    decreases events.len(),
{
    if events.len() == 0 {
        before
    } else {
        let earlier = events.drop_last();
        match (fan_mode_after(change, earlier).asks(), events.last()) {
            (Some(FanModeRequest::Helper(command)), FanModeEvent::Helper(true)) => preset_report(
                command.action,
            ),
            _ => report_after(before, change, earlier),
        }
    }
}

/// The mode that was set is the one that is read back: where the write, asked
/// for at event `written`, succeeded, every later report means the mode of the
/// change, however often it is read and whatever became of the bounce.
pub proof fn the_mode_set_is_read_back(
    mode: FanMode,
    status: FanPresetStatus,
    change: FanModeChange,
    before: Option<HelperFanMode>,
    events: Seq<FanModeEvent>,
    written: int,
)
    requires
        change_begun(mode, status, Ok(change)),
        0 <= written < events.len(),
        fan_mode_after(change, events.take(written)).stage is Write,
        events[written] == FanModeEvent::Helper(true),
    ensures
        mode_read(report_after(before, change, events)) == Some(mode),
    decreases events.len(),
{
    let earlier = events.drop_last();
    lemma_wake_needs_the_write(change, earlier);
    if written == events.len() - 1 {
        assert(events.take(written) =~= earlier);
    } else {
        assert(earlier.take(written) =~= events.take(written));
        the_mode_set_is_read_back(mode, status, change, before, earlier, written);
    }
}

/// A write that failed leaves the report as it was.
pub proof fn a_failed_write_leaves_the_mode(
    change: FanModeChange,
    before: Option<HelperFanMode>,
    later: Seq<FanModeEvent>,
)
    requires
        change.stage is Write,
    ensures
        report_after(before, change.after_helper(false), later) == before,
    decreases later.len(),
{
    if later.len() > 0 {
        a_failed_write_leaves_the_mode(change, before, later.drop_last());
        a_failed_write_ends_the_change(change, later.drop_last());
    }
}

/// A failed write ends the change: nothing more is asked for, whatever
/// comes in afterwards.
pub proof fn a_failed_write_ends_the_change(change: FanModeChange, later: Seq<FanModeEvent>)
    requires
        change.stage is Write,
    ensures
        fan_mode_after(change.after_helper(false), later).stage is Done,
        fan_mode_after(change.after_helper(false), later).asks() is None,
    decreases later.len(),
{
    if later.len() > 0 {
        a_failed_write_ends_the_change(change, later.drop_last());
    }
}

/// Nothing is ever sent for free percentages, nor on a model that is known to
/// disagree with the presets; on every other model the presets are sent.
pub proof fn refused_changes_send_nothing(
    mode: FanMode,
    status: FanPresetStatus,
    begun: Result<FanModeChange, FanError>,
)
    requires
        change_begun(mode, status, begun),
    ensures
        begun is Ok <==> !(mode is Custom) && status != FanPresetStatus::KnownIncompatible,
{
}

/// Every change that is not refused begins by asking for the write of its own
/// preset, without an argument, and is marked exactly on a model without a
/// report.
pub proof fn a_change_begins_with_its_write(
    mode: FanMode,
    status: FanPresetStatus,
    change: FanModeChange,
)
    requires
        change_begun(mode, status, Ok(change)),
    ensures
        !(mode is Custom) && status != FanPresetStatus::KnownIncompatible,
        change.mode == mode,
        change.unverified <==> status == FanPresetStatus::Unverified,
        change.asks() matches Some(FanModeRequest::Helper(command)) && command.argument
            == HelperArgument::Nothing && (command.action == HelperAction::FanAuto <==> mode
            == FanMode::Auto) && (command.action == HelperAction::FanMax <==> mode == FanMode::Max),
{
}

/// Every refusal names its reason: free percentages on any model, and a preset
/// on a model that is known to disagree with it.
pub proof fn a_refusal_names_its_reason(mode: FanMode, status: FanPresetStatus, error: FanError)
    requires
        change_begun(mode, status, Err(error)),
    ensures
        mode is Custom ==> error is CustomDisabled,
        !(mode is Custom) ==> error is EcIncompatible && status
            == FanPresetStatus::KnownIncompatible,
{
}

/// After its write has succeeded, `Auto` asks about the thermal profile and
/// `Max` asks for nothing more, whatever comes in afterwards.
pub proof fn only_auto_goes_on(change: FanModeChange, later: Seq<FanModeEvent>)
    requires
        change.stage is Write,
    ensures
        change.mode == FanMode::Auto ==> change.after_helper(true).asks() == Some(
            FanModeRequest::Thermal(ThermalRequest::IsAvailable),
        ),
        change.mode != FanMode::Auto ==> fan_mode_after(
            change.after_helper(true),
            later,
        ).asks() is None,
        change.after_helper(true).mode == change.mode,
    decreases later.len(),
{
    if change.mode != FanMode::Auto {
        lemma_done_stays_done(change.after_helper(true), later);
    }
}

/// A change that is over stays over.
proof fn lemma_done_stays_done(change: FanModeChange, later: Seq<FanModeEvent>)
    requires
        change.stage is Done,
    ensures
        fan_mode_after(change, later) == change,
    decreases later.len(),
{
    if later.len() > 0 {
        lemma_done_stays_done(change, later.drop_last());
    }
}

/// During the bounce a change asks for what the bounce asks for, takes only
/// replies about the thermal profile, and keeps everything but its stage.
pub proof fn a_change_follows_its_bounce(change: FanModeChange, reply: ThermalReply, ok: bool)
    requires
        change.stage is Wake,
    ensures
        change.asks() == (match wake_asks(change.stage->Wake_0) {
            Some(request) => Some(FanModeRequest::Thermal(request)),
            None => None,
        }),
        change.after_thermal(reply) == (FanModeChange {
            stage: FanModeStage::Wake(wake_next(change.stage->Wake_0, reply)),
            ..change
        }),
        change.after_helper(ok) == change,
{
}

/// A remark is made exactly where the preset is unverified, and it names the
/// model.
pub proof fn the_remark_names_the_model(change: FanModeChange, model: Seq<char>)
    ensures
        change.remark_line(model) is Some <==> change.unverified,
        change.remark_line(model) matches Some(line) ==> exists|front: Seq<char>, back: Seq<char>|
            #[trigger] (front + ("this model ("@ + model + ")"@) + back) == line,
{
    reveal_strlit("fan preset bytes are unverified on this model (");
    reveal_strlit("fan preset bytes are unverified on ");
    reveal_strlit("this model (");
    reveal_strlit(")");
    reveal_strlit("); sending the PH315-54 values anyway");
    reveal_strlit("; sending the PH315-54 values anyway");
    if let Some(line) = change.remark_line(model) {
        assert("fan preset bytes are unverified on "@ + ("this model ("@ + model + ")"@)
            + "; sending the PH315-54 values anyway"@ =~= line);
    }
}

/// The firmware's report and the mode it means go together one to one.
pub proof fn reports_and_modes_match(report: Option<HelperFanMode>)
    ensures
        mode_read(report) == Some(FanMode::Auto) <==> report == Some(HelperFanMode::Automatic),
        mode_read(report) == Some(FanMode::Max) <==> report == Some(HelperFanMode::Maximum),
        mode_read(report) is None <==> report is None,
        preset_report(HelperAction::FanAuto) == Some(HelperFanMode::Automatic),
        preset_report(HelperAction::FanMax) == Some(HelperFanMode::Maximum),
{
}

} // verus!
