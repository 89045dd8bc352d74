//! Waking the firmware's own fan curve.
//!
//! The embedded controller follows load only after a real transition of the
//! thermal-profile index. The bounce moves the index to another supported one
//! and back, so that the profile the user chose is the one in force afterwards.

use vstd::prelude::*;
use crate::text::{decimal, decimal_text};

verus! {

/// What the bounce asks of the firmware's thermal profile.
#[derive(Debug, Clone, Copy, PartialEq, Eq, Structural)]
pub enum ThermalRequest {
    IsAvailable,
    Current,
    Supported,
    Write(u32),
}

/// What came back. A write is reported by whether it succeeded.
#[derive(Debug)]
pub enum ThermalReply {
    Available(bool),
    Current(Option<u32>),
    Supported(Vec<u32>),
    Written(bool),
}

/// How a bounce ended.
#[derive(Debug, Clone, Copy, PartialEq, Eq, Structural)]
pub enum WakeOutcome {
    /// This machine has no thermal profile.
    Unavailable,
    /// The index in force could not be read.
    NoCurrent,
    /// There is no other index to go through.
    NoOther,
    /// The first write failed; nothing moved.
    Skipped { other: u32 },
    /// The write back failed; the profile stays where it was bounced to.
    LeftAt { other: u32, current: u32 },
    /// Out and back.
    Woken,
}

/// Where a bounce stands.
#[derive(Debug, Clone, Copy, PartialEq, Eq, Structural)]
pub enum WakeStage {
    AskAvailable,
    AskCurrent,
    AskSupported { current: u32 },
    BounceTo { current: u32, other: u32 },
    ReturnTo { current: u32, other: u32 },
    Done(WakeOutcome),
}

/// How loudly an outcome is reported.
#[derive(Debug, Clone, Copy, PartialEq, Eq, Structural)]
pub enum WakeReport {
    Silent,
    Info,
    Error,
}

/// The first index in a list that is not the current one.
pub open spec fn first_other(supported: Seq<u32>, current: u32) -> Option<u32>
    decreases supported.len(),
{
    if supported.len() == 0 {
        None
    } else if supported[0] != current {
        Some(supported[0])
    } else {
        first_other(supported.skip(1), current)
    }
}

/// What a stage asks for.
pub open spec fn wake_asks(stage: WakeStage) -> Option<ThermalRequest> {
    match stage {
        WakeStage::AskAvailable => Some(ThermalRequest::IsAvailable),
        WakeStage::AskCurrent => Some(ThermalRequest::Current),
        WakeStage::AskSupported { .. } => Some(ThermalRequest::Supported),
        WakeStage::BounceTo { other, .. } => Some(ThermalRequest::Write(other)),
        WakeStage::ReturnTo { current, .. } => Some(ThermalRequest::Write(current)),
        WakeStage::Done(_) => None,
    }
}

/// The stage after a reply. A reply to something that was not asked changes
/// nothing.
pub open spec fn wake_next(stage: WakeStage, reply: ThermalReply) -> WakeStage {
    match (stage, reply) {
        (WakeStage::AskAvailable, ThermalReply::Available(available)) => if available {
            WakeStage::AskCurrent
        } else {
            WakeStage::Done(WakeOutcome::Unavailable)
        },
        (WakeStage::AskCurrent, ThermalReply::Current(index)) => match index {
            Some(current) => WakeStage::AskSupported { current },
            None => WakeStage::Done(WakeOutcome::NoCurrent),
        },
        (
            WakeStage::AskSupported { current },
            ThermalReply::Supported(supported),
        ) => match first_other(supported@, current) {
            Some(other) => WakeStage::BounceTo { current, other },
            None => WakeStage::Done(WakeOutcome::NoOther),
        },
        (WakeStage::BounceTo { current, other }, ThermalReply::Written(ok)) => if ok {
            WakeStage::ReturnTo { current, other }
        } else {
            WakeStage::Done(WakeOutcome::Skipped { other })
        },
        (WakeStage::ReturnTo { current, other }, ThermalReply::Written(ok)) => if ok {
            WakeStage::Done(WakeOutcome::Woken)
        } else {
            WakeStage::Done(WakeOutcome::LeftAt { other, current })
        },
        _ => stage,
    }
}

/// The reply answers what the stage asks.
pub open spec fn answers(stage: WakeStage, reply: ThermalReply) -> bool {
    match wake_asks(stage) {
        Some(ThermalRequest::IsAvailable) => reply is Available,
        Some(ThermalRequest::Current) => reply is Current,
        Some(ThermalRequest::Supported) => reply is Supported,
        Some(ThermalRequest::Write(_)) => reply is Written,
        None => false,
    }
}

/// The first index that is not the current one.
pub fn other_profile(supported: &Vec<u32>, current: u32) -> (other: Option<u32>)
    ensures
        other == first_other(supported@, current),
{
    let mut i: usize = 0;
    assert(supported@.skip(0) =~= supported@);
    while i < supported.len()
        invariant
            i <= supported.len(),
            first_other(supported@, current) == first_other(supported@.skip(i as int), current),
        decreases supported.len() - i,
    {
        assert(supported@.skip(i as int)[0] == supported@[i as int]);
        if supported[i] != current {
            return Some(supported[i]);
        }
        assert(supported@.skip(i as int).skip(1) =~= supported@.skip(i + 1));
        i = i + 1;
    }
    None
}

/// What a stage asks for; nothing once the bounce is over.
pub fn wake_request(stage: WakeStage) -> (request: Option<ThermalRequest>)
    ensures
        request == wake_asks(stage),
{
    match stage {
        WakeStage::AskAvailable => Some(ThermalRequest::IsAvailable),
        WakeStage::AskCurrent => Some(ThermalRequest::Current),
        WakeStage::AskSupported { .. } => Some(ThermalRequest::Supported),
        WakeStage::BounceTo { other, .. } => Some(ThermalRequest::Write(other)),
        WakeStage::ReturnTo { current, .. } => Some(ThermalRequest::Write(current)),
        WakeStage::Done(_) => None,
    }
}

/// One step of the bounce: off the current index through another supported
/// one and back. It is a bonus on top of a fan mode change, so every way of
/// not getting through ends it without an error.
pub fn wake_dynamic_fan_curve(stage: WakeStage, reply: ThermalReply) -> (next: WakeStage)
    ensures
        next == wake_next(stage, reply),
{
    match stage {
        WakeStage::AskAvailable => match reply {
            ThermalReply::Available(true) => WakeStage::AskCurrent,
            ThermalReply::Available(false) => WakeStage::Done(WakeOutcome::Unavailable),
            _ => stage,
        },
        WakeStage::AskCurrent => match reply {
            ThermalReply::Current(Some(current)) => WakeStage::AskSupported { current },
            ThermalReply::Current(None) => WakeStage::Done(WakeOutcome::NoCurrent),
            _ => stage,
        },
        WakeStage::AskSupported { current } => match reply {
            ThermalReply::Supported(supported) => match other_profile(&supported, current) {
                Some(other) => WakeStage::BounceTo { current, other },
                None => WakeStage::Done(WakeOutcome::NoOther),
            },
            _ => stage,
        },
        WakeStage::BounceTo { current, other } => match reply {
            ThermalReply::Written(true) => WakeStage::ReturnTo { current, other },
            ThermalReply::Written(false) => WakeStage::Done(WakeOutcome::Skipped { other }),
            _ => stage,
        },
        WakeStage::ReturnTo { current, other } => match reply {
            ThermalReply::Written(true) => WakeStage::Done(WakeOutcome::Woken),
            ThermalReply::Written(false) => WakeStage::Done(WakeOutcome::LeftAt { other, current }),
            _ => stage,
        },
        WakeStage::Done(_) => stage,
    }
}

/// An error is reported when the profile was left somewhere else, a remark
/// when the bounce could not begin to move it, and nothing otherwise.
pub open spec fn reported(outcome: WakeOutcome) -> WakeReport {
    match outcome {
        WakeOutcome::LeftAt { .. } => WakeReport::Error,
        WakeOutcome::Skipped { .. } => WakeReport::Info,
        _ => WakeReport::Silent,
    }
}

/// How loudly an outcome is reported.
pub fn wake_report(outcome: WakeOutcome) -> (report: WakeReport)
    ensures
        report == reported(outcome),
{
    match outcome {
        WakeOutcome::LeftAt { .. } => WakeReport::Error,
        WakeOutcome::Skipped { .. } => WakeReport::Info,
        _ => WakeReport::Silent,
    }
}

/// The line of the log for an outcome, given the words of the error that the
/// failed write came with; nothing for an outcome that is not reported.
pub open spec fn wake_line(outcome: WakeOutcome, words: Seq<char>) -> Option<Seq<char>> {
    match outcome {
        WakeOutcome::Skipped { other } => Some(
            "fan auto-curve wake skipped: could not set thermal profile "@ + decimal(other as nat)
                + ": "@ + words,
        ),
        WakeOutcome::LeftAt { other, current } => Some(
            "fan auto-curve wake left the firmware power profile at "@ + decimal(other as nat)
                + " instead of restoring "@ + decimal(current as nat) + ": "@ + words,
        ),
        _ => None,
    }
}

/// The line of the log for an outcome. It names the index that could not be
/// set, or where the profile is and where it belongs, and the error.
pub fn wake_message(outcome: WakeOutcome, words: &str) -> (line: Option<String>)
    ensures
        match line {
            Some(text) => wake_line(outcome, words@) == Some(text@),
            None => wake_line(outcome, words@) is None,
        },
{
    match outcome {
        WakeOutcome::Skipped { other } => {
            let mut line = "fan auto-curve wake skipped: could not set thermal profile ".to_owned();
            line.append(decimal_text(other).as_str());
            line.append(": ");
            line.append(words);
            Some(line)
        },
        WakeOutcome::LeftAt { other, current } => {
            let mut line = "fan auto-curve wake left the firmware power profile at ".to_owned();
            line.append(decimal_text(other).as_str());
            line.append(" instead of restoring ");
            line.append(decimal_text(current).as_str());
            line.append(": ");
            line.append(words);
            Some(line)
        },
        _ => None,
    }
}

/// There is a line for an outcome exactly when it is reported.
pub proof fn every_report_has_its_line(outcome: WakeOutcome, words: Seq<char>)
    ensures
        wake_line(outcome, words) is Some <==> reported(outcome) != WakeReport::Silent,
{
}

/// The stage after a run of replies.
pub open spec fn wake_after(stage: WakeStage, replies: Seq<ThermalReply>) -> WakeStage
    decreases replies.len(),
{
    if replies.len() == 0 {
        stage
    } else {
        wake_next(wake_after(stage, replies.drop_last()), replies.last())
    }
}

/// The index in force after a run of replies, given the one in force before:
/// a write that is reported as successful puts its index in force.
pub open spec fn index_after(start: u32, replies: Seq<ThermalReply>) -> u32
    decreases replies.len(),
{
    if replies.len() == 0 {
        start
    } else {
        let before = replies.drop_last();
        match (wake_asks(wake_after(WakeStage::AskAvailable, before)), replies.last()) {
            (Some(ThermalRequest::Write(index)), ThermalReply::Written(true)) => index,
            _ => index_after(start, before),
        }
    }
}

/// Whoever answers for the current index answers truthfully, or not at all.
pub open spec fn truthful(start: u32, replies: Seq<ThermalReply>) -> bool {
    forall|i: int|
        0 <= i < replies.len() ==> (#[trigger] replies[i] matches ThermalReply::Current(Some(index))
            ==> index == start)
}

/// What holds of the index in force at each stage.
spec fn stage_matches_index(stage: WakeStage, start: u32, index: u32) -> bool {
    match stage {
        WakeStage::AskAvailable | WakeStage::AskCurrent => index == start,
        WakeStage::AskSupported { current } => index == start && current == start,
        WakeStage::BounceTo { current, other } => index == start && current == start && other
            != start,
        WakeStage::ReturnTo { current, other } => index == other && current == start && other
            != start,
        WakeStage::Done(WakeOutcome::LeftAt { other, current }) => index == other && current
            == start && other != start,
        WakeStage::Done(_) => index == start,
    }
}

/// The other index is one that the list holds, and not the current one; when
/// there is none, the list holds nothing but the current one.
pub proof fn first_other_is_in_the_list(supported: Seq<u32>, current: u32)
    ensures
        match first_other(supported, current) {
            Some(other) => other != current && supported.contains(other),
            None => forall|i: int| 0 <= i < supported.len() ==> supported[i] == current,
        },
    decreases supported.len(),
{
    if supported.len() > 0 {
        if supported[0] != current {
            assert(supported.contains(supported[0]));
        } else {
            let rest = supported.skip(1);
            first_other_is_in_the_list(rest, current);
            match first_other(supported, current) {
                Some(other) => {
                    let k = choose|k: int| 0 <= k < rest.len() && rest[k] == other;
                    assert(supported[k + 1] == other);
                },
                None => {
                    assert forall|i: int| 0 <= i < supported.len() implies supported[i]
                        == current by {
                        if i > 0 {
                            assert(rest[i - 1] == supported[i]);
                        }
                    }
                },
            }
        }
    }
}

/// The index in force fits the stage at every point of a bounce.
proof fn lemma_stage_matches_index(start: u32, replies: Seq<ThermalReply>)
    requires
        truthful(start, replies),
    ensures
        stage_matches_index(
            wake_after(WakeStage::AskAvailable, replies),
            start,
            index_after(start, replies),
        ),
    decreases replies.len(),
{
    if replies.len() > 0 {
        let before = replies.drop_last();
        assert forall|i: int| 0 <= i < before.len() implies (#[trigger] before[i] matches ThermalReply::Current(
            Some(index),
        ) ==> index == start) by {
            assert(before[i] == replies[i]);
        }
        lemma_stage_matches_index(start, before);
        let last = replies[replies.len() - 1];
        match (wake_after(WakeStage::AskAvailable, before), last) {
            (WakeStage::AskSupported { current }, ThermalReply::Supported(supported)) => {
                first_other_is_in_the_list(supported@, current);
            },
            _ => {},
        }
    }
}

/// A bounce that is over has left the profile where it found it, with one
/// exception: the write back failed, and then the outcome says where the
/// profile is and where it belongs.
pub proof fn bounce_ends_where_it_started(start: u32, replies: Seq<ThermalReply>)
    requires
        truthful(start, replies),
        wake_after(WakeStage::AskAvailable, replies) is Done,
    ensures
        match wake_after(WakeStage::AskAvailable, replies)->Done_0 {
            WakeOutcome::LeftAt { other, current } => index_after(start, replies) == other && current
                == start && other != start,
            _ => index_after(start, replies) == start,
        },
{
    lemma_stage_matches_index(start, replies);
}

/// An error is reported exactly when the profile ends up elsewhere.
pub proof fn error_means_the_profile_moved(start: u32, replies: Seq<ThermalReply>)
    requires
        truthful(start, replies),
        wake_after(WakeStage::AskAvailable, replies) is Done,
    ensures
        reported(wake_after(WakeStage::AskAvailable, replies)->Done_0) == WakeReport::Error
            <==> index_after(start, replies) != start,
{
    lemma_stage_matches_index(start, replies);
}

/// How many answers a stage is from the end, at most.
pub open spec fn answers_left(stage: WakeStage) -> nat {
    match stage {
        WakeStage::AskAvailable => 5,
        WakeStage::AskCurrent => 4,
        WakeStage::AskSupported { .. } => 3,
        WakeStage::BounceTo { .. } => 2,
        WakeStage::ReturnTo { .. } => 1,
        WakeStage::Done(_) => 0,
    }
}

/// Every answer brings a bounce nearer its end, and a reply that answers
/// nothing leaves it where it is.
pub proof fn bounce_makes_progress(stage: WakeStage, reply: ThermalReply)
    ensures
        answers(stage, reply) ==> answers_left(wake_next(stage, reply)) < answers_left(stage),
        !answers(stage, reply) ==> wake_next(stage, reply) == stage,
        answers_left(stage) == 0 <==> stage is Done,
{
}

/// The first index that differs from the current one is the one to bounce to.
proof fn lemma_first_other_at(supported: Seq<u32>, current: u32, k: int)
    requires
        0 <= k < supported.len(),
        supported[k] != current,
        forall|j: int| 0 <= j < k ==> supported[j] == current,
    ensures
        first_other(supported, current) == Some(supported[k]),
    decreases supported.len(),
{
    if k > 0 {
        assert(supported[0] == current);
        let rest = supported.skip(1);
        assert forall|j: int| 0 <= j < k - 1 implies rest[j] == current by {
            assert(rest[j] == supported[j + 1]);
        }
        lemma_first_other_at(rest, current, k - 1);
    }
}

/// The bounce on a machine with another index to go through, whatever the
/// current one is: it asks whether there is a thermal profile, which index is
/// in force and which are supported, then writes the first supported index that
/// differs from the one in force, and then the one that was in force. Both
/// writes accepted, the curve is woken. The first refused, there is no second;
/// the second refused, the outcome names both indices.
pub proof fn a_bounce_goes_out_and_back(current: u32, supported: Vec<u32>, k: int)
    requires
        0 <= k < supported@.len(),
        supported@[k] != current,
        forall|j: int| 0 <= j < k ==> supported@[j] == current,
    ensures
        ({
            let other = supported@[k];
            let s0 = WakeStage::AskAvailable;
            let s1 = wake_next(s0, ThermalReply::Available(true));
            let s2 = wake_next(s1, ThermalReply::Current(Some(current)));
            let s3 = wake_next(s2, ThermalReply::Supported(supported));
            let s4 = wake_next(s3, ThermalReply::Written(true));
            let s5 = wake_next(s4, ThermalReply::Written(true));
            &&& wake_asks(s0) == Some(ThermalRequest::IsAvailable)
            &&& wake_asks(s1) == Some(ThermalRequest::Current)
            &&& wake_asks(s2) == Some(ThermalRequest::Supported)
            &&& wake_asks(s3) == Some(ThermalRequest::Write(other))
            &&& wake_asks(s4) == Some(ThermalRequest::Write(current))
            &&& wake_asks(s5) is None
            &&& s5 == WakeStage::Done(WakeOutcome::Woken)
            &&& wake_next(s3, ThermalReply::Written(false)) == WakeStage::Done(
                WakeOutcome::Skipped { other },
            )
            &&& wake_next(s4, ThermalReply::Written(false)) == WakeStage::Done(
                WakeOutcome::LeftAt { other, current },
            )
        }),
{
    lemma_first_other_at(supported@, current, k);
}

/// How a bounce that writes nothing ends: without a thermal profile, without an
/// index in force, or, whatever that index is, without another one.
pub proof fn a_bounce_that_writes_nothing(current: u32, supported: Vec<u32>)
    requires
        forall|j: int| 0 <= j < supported@.len() ==> supported@[j] == current,
    ensures
        ({
            let s1 = wake_next(WakeStage::AskAvailable, ThermalReply::Available(true));
            let s2 = wake_next(s1, ThermalReply::Current(Some(current)));
            &&& wake_next(WakeStage::AskAvailable, ThermalReply::Available(false))
                == WakeStage::Done(WakeOutcome::Unavailable)
            &&& wake_next(s1, ThermalReply::Current(None)) == WakeStage::Done(
                WakeOutcome::NoCurrent,
            )
            &&& wake_next(s2, ThermalReply::Supported(supported)) == WakeStage::Done(
                WakeOutcome::NoOther,
            )
        }),
{
    first_other_is_in_the_list(supported@, current);
    if let Some(other) = first_other(supported@, current) {
        let k = choose|k: int| 0 <= k < supported@.len() && supported@[k] == other;
        assert(supported@[k] == current);
    }
}

/// Each way for a bounce to end has one cause. In particular it gives up for
/// want of another index only on a list that holds nothing but the current one.
pub proof fn every_end_has_its_cause(stage: WakeStage, reply: ThermalReply, outcome: WakeOutcome)
    requires
        !(stage is Done),
        wake_next(stage, reply) == WakeStage::Done(outcome),
    ensures
        match outcome {
            WakeOutcome::Unavailable => stage is AskAvailable && reply
                == ThermalReply::Available(false),
            WakeOutcome::NoCurrent => stage is AskCurrent && reply == ThermalReply::Current(None),
            WakeOutcome::NoOther => stage matches WakeStage::AskSupported { current } && (
            reply matches ThermalReply::Supported(list) && (forall|i: int|
                0 <= i < list@.len() ==> list@[i] == current)),
            WakeOutcome::Skipped { other } => (stage matches WakeStage::BounceTo {
                other: tried,
                ..
            } && tried == other) && reply == ThermalReply::Written(false),
            WakeOutcome::LeftAt { other, current } => stage == (WakeStage::ReturnTo {
                current,
                other,
            }) && reply == ThermalReply::Written(false),
            WakeOutcome::Woken => stage is ReturnTo && reply == ThermalReply::Written(true),
        },
{
    match (stage, reply) {
        (WakeStage::AskSupported { current }, ThermalReply::Supported(list)) => {
            first_other_is_in_the_list(list@, current);
        },
        _ => {},
    }
}

/// A remark is made exactly of a bounce that could not begin, an error exactly
/// of one that could not return.
pub proof fn what_is_reported(outcome: WakeOutcome)
    ensures
        reported(outcome) == WakeReport::Info <==> outcome is Skipped,
        reported(outcome) == WakeReport::Error <==> outcome is LeftAt,
{
}

/// The line of the log ends with the error's words, and before them names the
/// index that could not be set, or where the profile was left and, after it,
/// where it belongs.
pub proof fn the_line_names_what_went_wrong(other: u32, current: u32, words: Seq<char>)
    ensures
        wake_line(WakeOutcome::Skipped { other }, words) matches Some(line) && exists|
            front: Seq<char>,
        | #[trigger]
            (front + ("could not set thermal profile "@ + decimal(other as nat) + ": "@ + words))
                == line,
        wake_line(WakeOutcome::LeftAt { other, current }, words) matches Some(line) && exists|
            front: Seq<char>,
        | #[trigger]
            (front + (" at "@ + decimal(other as nat) + " instead of restoring "@ + decimal(
                current as nat,
            ) + ": "@ + words)) == line,
{
    reveal_strlit("fan auto-curve wake skipped: could not set thermal profile ");
    reveal_strlit("fan auto-curve wake skipped: ");
    reveal_strlit("could not set thermal profile ");
    reveal_strlit("fan auto-curve wake left the firmware power profile at ");
    reveal_strlit("fan auto-curve wake left the firmware power profile");
    reveal_strlit(" at ");
    let skipped = wake_line(WakeOutcome::Skipped { other }, words)->0;
    assert("fan auto-curve wake skipped: "@ + ("could not set thermal profile "@ + decimal(
        other as nat,
    ) + ": "@ + words) =~= skipped);
    let left = wake_line(WakeOutcome::LeftAt { other, current }, words)->0;
    assert("fan auto-curve wake left the firmware power profile"@ + (" at "@ + decimal(other as nat)
        + " instead of restoring "@ + decimal(current as nat) + ": "@ + words) =~= left);
}

} // verus!
