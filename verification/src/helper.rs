//! Commands for the privileged helper, and scripts of them.
//!
//! Only the helper may touch the embedded controller and the fan files. The
//! library decides which commands it gets and in which order; whoever holds
//! the connection runs them one by one and reports back.

use vstd::prelude::*;

verus! {

/// What the helper can be asked to do for the fans.
#[derive(Debug, Clone, Copy, PartialEq, Eq, Structural)]
pub enum HelperAction {
    FanAuto,
    FanMax,
    FanModeRead,
    CoolBoost,
    CoolBoostRead,
    PwmAvailable,
    PwmCpuEnable,
    PwmGpuEnable,
    PwmCpu,
    PwmGpu,
    PwmCpuRead,
    PwmGpuRead,
}

/// Who drives a fan: the value that goes into its enable file.
#[derive(Debug, Clone, Copy, PartialEq, Eq, Structural)]
pub enum PwmControlMode {
    Manual,
    Automatic,
}

/// What goes along with an action.
#[derive(Debug, Clone, Copy, PartialEq, Eq, Structural)]
pub enum HelperArgument {
    Nothing,
    ControlMode(PwmControlMode),
    Switch(bool),
    Value(u16),
}

/// One request to the helper.
#[derive(Debug, Clone, Copy, PartialEq, Eq, Structural)]
pub struct HelperCommand {
    pub action: HelperAction,
    pub argument: HelperArgument,
}

/// Where a script of `len` commands stands after the reply to command `at`:
/// one further on success, past the end on failure.
pub open spec fn position_after_reply(len: nat, at: nat, ok: bool) -> nat {
    if ok && at < len {
        at + 1
    } else {
        len
    }
}

/// Where a script of `len` commands stands after a run of replies.
pub open spec fn position_after(len: nat, oks: Seq<bool>) -> nat
    decreases oks.len(),
{
    if oks.len() == 0 {
        0
    } else {
        position_after_reply(len, position_after(len, oks.drop_last()), oks.last())
    }
}

/// Commands that run in order until one fails.
pub struct Script {
    commands: Vec<HelperCommand>,
    position: usize,
}

impl Script {
    /// The commands, in order.
    pub closed spec fn commands(self) -> Seq<HelperCommand> {
        self.commands@
    }

    /// How many commands are over and done with.
    pub closed spec fn position(self) -> nat {
        self.position as nat
    }

    #[verifier::type_invariant]
    spec fn inside(self) -> bool {
        self.position <= self.commands@.len()
    }

    /// The command to run now, if one is left.
    pub open spec fn pending(self) -> Option<HelperCommand> {
        if self.position() < self.commands().len() {
            Some(self.commands()[self.position() as int])
        } else {
            None
        }
    }

    /// A script that has not begun.
    pub fn new(commands: Vec<HelperCommand>) -> (script: Script)
        ensures
            script.commands() == commands@,
            script.position() == 0,
    {
        Script { commands, position: 0 }
    }

    /// The command to run now, if one is left.
    pub fn current(&self) -> (command: Option<HelperCommand>)
        ensures
            command == self.pending(),
    {
        if self.position < self.commands.len() {
            Some(self.commands[self.position])
        } else {
            None
        }
    }

    /// Takes the reply to the current command. Success moves on to the next
    /// command. An error ends the script and comes back as it is.
    pub fn advance(&mut self, reply: Result<(), String>) -> (outcome: Result<(), String>)
        ensures
            outcome == reply,
            final(self).commands() == old(self).commands(),
            final(self).position() == position_after_reply(
                old(self).commands().len(),
                old(self).position(),
                reply is Ok,
            ),
    {
        if reply.is_ok() && self.position < self.commands.len() {
            self.position = self.position + 1;
        } else {
            self.position = self.commands.len();
        }
        reply
    }
}

/// A command is reached exactly when every command before it has succeeded.
pub proof fn script_stops_at_the_first_failure(len: nat, oks: Seq<bool>)
    requires
        oks.len() < len,
    ensures
        position_after(len, oks) == oks.len() <==> (forall|i: int| 0 <= i < oks.len() ==> oks[i]),
        position_after(len, oks) != oks.len() ==> position_after(len, oks) == len,
    decreases oks.len(),
{
    if oks.len() > 0 {
        let front = oks.drop_last();
        script_stops_at_the_first_failure(len, front);
        assert(forall|i: int| 0 <= i < front.len() ==> front[i] == oks[i]);
        if forall|i: int| 0 <= i < front.len() ==> front[i] {
            if oks.last() {
                assert forall|i: int| 0 <= i < oks.len() implies oks[i] by {
                    if i < front.len() {
                        assert(front[i]);
                    }
                }
            } else {
                assert(!oks[oks.len() - 1]);
            }
        } else {
            let bad = choose|i: int| 0 <= i < front.len() && !front[i];
            assert(!oks[bad]);
        }
    }
}

/// A script asks for its commands one after the other, each once: after `n`
/// successes it asks for the command at place `n`, and for nothing once all of
/// them have succeeded or one has failed.
pub proof fn commands_run_in_order(script: Script, oks: Seq<bool>)
    requires
        script.position() == position_after(script.commands().len(), oks),
    ensures
        oks.len() < script.commands().len() && (forall|i: int| 0 <= i < oks.len() ==> oks[i])
            ==> script.pending() == Some(script.commands()[oks.len() as int]),
        oks.len() >= script.commands().len() ==> script.pending() is None,
        (exists|i: int| 0 <= i < oks.len() && !oks[i]) ==> script.pending() is None,
{
    let len = script.commands().len();
    lemma_position(len, oks);
}

/// Where a script stands: at the number of replies while all are successes, and
/// past the end afterwards.
proof fn lemma_position(len: nat, oks: Seq<bool>)
    ensures
        position_after(len, oks) == if oks.len() < len && (forall|i: int|
            0 <= i < oks.len() ==> oks[i]) {
            oks.len()
        } else {
            len
        },
    decreases oks.len(),
{
    if oks.len() > 0 {
        let front = oks.drop_last();
        lemma_position(len, front);
        assert(oks.last() == oks[oks.len() - 1]);
        assert(forall|i: int| 0 <= i < front.len() ==> front[i] == oks[i]);
        if forall|i: int| 0 <= i < oks.len() ==> oks[i] {
            assert forall|i: int| 0 <= i < front.len() implies front[i] by {
                assert(oks[i]);
            }
        }
        if (forall|i: int| 0 <= i < front.len() ==> front[i]) && oks.last() {
            assert forall|i: int| 0 <= i < oks.len() implies oks[i] by {
                if i < front.len() {
                    assert(front[i]);
                }
            }
        }
    }
}

} // verus!
