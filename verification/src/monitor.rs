//! The assistant's background monitor: a snapshot every minute, and a check
//! once enough minutes have gathered.

use vstd::prelude::*;

verus! {

/// Counts the minutes since the last check.
#[derive(Debug)]
pub struct AssistantMonitor {
    minutes: u32,
}

/// What a minute calls for.
#[derive(Debug, Clone, Copy, PartialEq, Eq, Structural)]
pub enum MinuteWork {
    /// The assistant is off.
    Nothing,
    Snapshot,
    SnapshotAndCheck,
}

/// The minutes between two checks; an interval of none counts as one.
pub open spec fn check_every(interval: int) -> int {
    if interval < 1 {
        1
    } else {
        interval
    }
}

/// What a minute calls for, given the minutes since the last check.
pub open spec fn minute_work(minutes: int, enabled: bool, interval: int) -> MinuteWork {
    if !enabled {
        MinuteWork::Nothing
    } else if minutes + 1 >= check_every(interval) {
        MinuteWork::SnapshotAndCheck
    } else {
        MinuteWork::Snapshot
    }
}

/// The minutes since the last check, one minute on.
pub open spec fn minutes_next(minutes: int, enabled: bool, interval: int) -> int {
    if minute_work(minutes, enabled, interval) == MinuteWork::Snapshot {
        minutes + 1
    } else {
        0
    }
}

impl AssistantMonitor {
    /// Minutes since the last check.
    pub closed spec fn minutes(self) -> int {
        self.minutes as int
    }

    #[verifier::type_invariant]
    spec fn counts_on(self) -> bool {
        self.minutes < u32::MAX
    }

    /// A monitor at launch.
    pub fn new() -> (monitor: AssistantMonitor)
        ensures
            monitor.minutes() == 0,
    {
        AssistantMonitor { minutes: 0 }
    }

    /// One minute has gone by. The setting and the interval are the ones in
    /// force now, so a change of either takes effect with the next minute.
    pub fn minute(&mut self, enabled: bool, interval: u32) -> (work: MinuteWork)
        ensures
            work == minute_work(old(self).minutes(), enabled, interval as int),
            final(self).minutes() == minutes_next(old(self).minutes(), enabled, interval as int),
    {
        proof {
            use_type_invariant(&*self);
        }
        if !enabled {
            self.minutes = 0;
            return MinuteWork::Nothing;
        }
        let elapsed: u32 = self.minutes + 1;
        let needed: u32 = if interval < 1 {
            1
        } else {
            interval
        };
        if elapsed >= needed {
            self.minutes = 0;
            MinuteWork::SnapshotAndCheck
        } else {
            self.minutes = elapsed;
            MinuteWork::Snapshot
        }
    }
}

/// The minutes since the last check after `n` minutes with the assistant on,
/// counted from a fresh start.
pub open spec fn minutes_after(n: nat, interval: int) -> int
    decreases n,
{
    if n == 0 {
        0
    } else {
        minutes_next(minutes_after((n - 1) as nat, interval), true, interval)
    }
}

/// The count is the remainder of the minutes gone by.
proof fn lemma_minutes_after(n: nat, interval: int)
    ensures
        minutes_after(n, interval) == n as int % check_every(interval),
    decreases n,
{
    let every = check_every(interval);
    if n == 0 {
        vstd::arithmetic::div_mod::lemma_small_mod(0, every as nat);
    } else {
        lemma_minutes_after((n - 1) as nat, interval);
        let r = (n - 1) % every;
        vstd::arithmetic::div_mod::lemma_fundamental_div_mod(n - 1, every);
        let q = (n - 1) / every;
        vstd::arithmetic::div_mod::lemma_mod_bound(n - 1, every);
        if r + 1 < every {
            assert(n == every * q + (r + 1));
            vstd::arithmetic::div_mod::lemma_fundamental_div_mod_converse(n as int, every, q, r + 1);
        } else {
            assert(n == every * (q + 1) + 0) by (nonlinear_arith)
                requires
                    n - 1 == every * q + r,
                    r + 1 == every,
            ;
            vstd::arithmetic::div_mod::lemma_fundamental_div_mod_converse(n as int, every, q + 1, 0);
        }
    }
}

/// With the assistant on and the interval left alone, a snapshot is taken every
/// minute, and a check is made in every minute whose number is a multiple of
/// the interval and in no other.
pub proof fn a_check_every_interval(n: nat, interval: int)
    requires
        n > 0,
    ensures
        minute_work(minutes_after((n - 1) as nat, interval), true, interval) == if n as int
            % check_every(interval) == 0 {
            MinuteWork::SnapshotAndCheck
        } else {
            MinuteWork::Snapshot
        },
{
    let every = check_every(interval);
    lemma_minutes_after((n - 1) as nat, interval);
    lemma_minutes_after(n, interval);
    vstd::arithmetic::div_mod::lemma_mod_bound(n - 1, every);
}

/// A minute with the assistant off starts the count afresh.
pub proof fn switching_off_starts_afresh(minutes: int, interval: int)
    ensures
        minute_work(minutes, false, interval) == MinuteWork::Nothing,
        minutes_next(minutes, false, interval) == 0,
{
}

/// A minute, whatever was set before: nothing with the assistant off; otherwise
/// a snapshot, and a check too exactly when this minute makes the count reach
/// the interval, one at least. After a check or with the assistant off the count
/// is zero, and otherwise one more.
pub proof fn what_a_minute_does(minutes: int, enabled: bool, interval: int)
    requires
        minutes >= 0,
        interval >= 0,
    ensures
        minute_work(minutes, enabled, interval) == MinuteWork::Nothing <==> !enabled,
        minute_work(minutes, enabled, interval) == MinuteWork::SnapshotAndCheck <==> enabled
            && minutes + 1 >= interval,
        minutes_next(minutes, enabled, interval) == if enabled && minutes + 1 < interval {
            minutes + 1
        } else {
            0
        },
{
}

/// With the assistant on and the interval left alone at one minute or more, the
/// minutes with a check are those whose number is a multiple of it; an interval
/// of none checks every minute.
pub proof fn checks_are_an_interval_apart(n: nat, interval: int)
    requires
        n > 0,
        interval >= 0,
    ensures
        interval >= 1 ==> (minute_work(minutes_after((n - 1) as nat, interval), true, interval)
            == MinuteWork::SnapshotAndCheck <==> n as int % interval == 0),
        interval == 0 ==> minute_work(minutes_after((n - 1) as nat, interval), true, interval)
            == MinuteWork::SnapshotAndCheck,
{
    a_check_every_interval(n, interval);
}

} // verus!
