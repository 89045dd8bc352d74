//! Direct fan speeds and the CoolBoost switch.
//!
//! The kernel takes a speed from 0 to 255; people set and read percent.

use vstd::prelude::*;
use crate::celsius::Celsius;
use crate::curve::{curve_step, hotter_never_slows_the_fans, rising};
use crate::helper::{position_after, script_stops_at_the_first_failure, HelperAction, HelperArgument, HelperCommand, PwmControlMode, Script};
use crate::text::{decimal, decimal_reads_back, decimal_text, parse_u16, parsed_u16, same_text};

verus! {

/// A full speed in percent.
pub const PERCENT_MAX: u16 = 100;

/// A full speed as the kernel counts it.
pub const PWM_VALUE_MAX: u16 = 255;

/// The kernel's value for a percentage; more than full speed is full speed.
pub open spec fn pwm_of_percent(pct: int) -> int {
    (if pct < PERCENT_MAX { pct } else { PERCENT_MAX as int }) * PWM_VALUE_MAX / PERCENT_MAX as int
}

/// The percentage for a value read from the kernel; more than full speed is
/// full speed.
pub open spec fn percent_of_pwm(value: int) -> int {
    (if value < PWM_VALUE_MAX { value } else { PWM_VALUE_MAX as int }) * PERCENT_MAX
        / PWM_VALUE_MAX as int
}

/// The commands that set both speeds: each fan is put under manual control
/// before either gets its value.
pub open spec fn speed_commands(cpu_pct: u8, gpu_pct: u8) -> Seq<HelperCommand> {
    seq![
        HelperCommand {
            action: HelperAction::PwmCpuEnable,
            argument: HelperArgument::ControlMode(PwmControlMode::Manual),
        },
        HelperCommand {
            action: HelperAction::PwmGpuEnable,
            argument: HelperArgument::ControlMode(PwmControlMode::Manual),
        },
        HelperCommand {
            action: HelperAction::PwmCpu,
            argument: HelperArgument::Value(pwm_of_percent(cpu_pct as int) as u16),
        },
        HelperCommand {
            action: HelperAction::PwmGpu,
            argument: HelperArgument::Value(pwm_of_percent(gpu_pct as int) as u16),
        },
    ]
}

/// The commands that give both fans back.
pub open spec fn release_commands() -> Seq<HelperCommand> {
    seq![
        HelperCommand {
            action: HelperAction::PwmCpuEnable,
            argument: HelperArgument::ControlMode(PwmControlMode::Automatic),
        },
        HelperCommand {
            action: HelperAction::PwmGpuEnable,
            argument: HelperArgument::ControlMode(PwmControlMode::Automatic),
        },
    ]
}

/// The commands of the curve's worker, if it writes at all.
pub open spec fn curve_commands(allowed: bool, pct: u8) -> Option<Seq<HelperCommand>> {
    if allowed {
        Some(speed_commands(pct, pct))
    } else {
        None
    }
}

/// The percentages for two values, where both are there.
pub open spec fn percents_read(cpu: Option<u16>, gpu: Option<u16>) -> Option<(int, int)> {
    match (cpu, gpu) {
        (Some(c), Some(g)) => Some((percent_of_pwm(c as int), percent_of_pwm(g as int))),
        _ => None,
    }
}

/// The kernel's value for a percentage.
fn pwm_value(pct: u8) -> (value: u16)
    ensures
        value == pwm_of_percent(pct as int),
        value <= PWM_VALUE_MAX,
{
    let capped: u16 = if (pct as u16) < PERCENT_MAX {
        pct as u16
    } else {
        PERCENT_MAX
    };
    (capped * PWM_VALUE_MAX) / PERCENT_MAX
}

/// Sets the CPU and GPU fan speeds in percent, both under manual control.
pub fn set_pwm_percent(cpu_pct: u8, gpu_pct: u8) -> (script: Script)
    ensures
        script.commands() == speed_commands(cpu_pct, gpu_pct),
        script.position() == 0,
{
    let manual = HelperArgument::ControlMode(PwmControlMode::Manual);
    let mut commands: Vec<HelperCommand> = Vec::new();
    commands.push(HelperCommand { action: HelperAction::PwmCpuEnable, argument: manual });
    commands.push(HelperCommand { action: HelperAction::PwmGpuEnable, argument: manual });
    commands.push(
        HelperCommand {
            action: HelperAction::PwmCpu,
            argument: HelperArgument::Value(pwm_value(cpu_pct)),
        },
    );
    commands.push(
        HelperCommand {
            action: HelperAction::PwmGpu,
            argument: HelperArgument::Value(pwm_value(gpu_pct)),
        },
    );
    assert(commands@ =~= speed_commands(cpu_pct, gpu_pct));
    Script::new(commands)
}

/// Gives both fans back to automatic control.
pub fn set_pwm_auto() -> (script: Script)
    ensures
        script.commands() == seq![
            HelperCommand {
                action: HelperAction::PwmCpuEnable,
                argument: HelperArgument::ControlMode(PwmControlMode::Automatic),
            },
            HelperCommand {
                action: HelperAction::PwmGpuEnable,
                argument: HelperArgument::ControlMode(PwmControlMode::Automatic),
            },
        ],
        script.commands() == release_commands(),
        script.position() == 0,
{
    let automatic = HelperArgument::ControlMode(PwmControlMode::Automatic);
    let mut commands: Vec<HelperCommand> = Vec::new();
    commands.push(HelperCommand { action: HelperAction::PwmCpuEnable, argument: automatic });
    commands.push(HelperCommand { action: HelperAction::PwmGpuEnable, argument: automatic });
    Script::new(commands)
}

/// The text of a speed, as the helper gets it.
pub fn speed_text(value: u16) -> (text: String)
    ensures
        text@ == decimal(value as nat),
{
    decimal_text(value as u32)
}

/// The write that the curve's worker makes: one speed for both fans where the
/// mode in force lets software drive them, nothing where it does not.
pub fn curve_write(allowed: bool, pct: u8) -> (write: Option<Script>)
    ensures
        write is Some <==> allowed,
        write matches Some(script) ==> script.commands() == speed_commands(pct, pct)
            && script.position() == 0,
        match write {
            Some(script) => curve_commands(allowed, pct) == Some(script.commands()),
            None => curve_commands(allowed, pct) is None,
        },
{
    if allowed {
        Some(set_pwm_percent(pct, pct))
    } else {
        None
    }
}

/// Switches CoolBoost.
pub fn set_coolboost(enabled: bool) -> (command: HelperCommand)
    ensures
        command == (HelperCommand {
            action: HelperAction::CoolBoost,
            argument: HelperArgument::Switch(enabled),
        }),
{
    HelperCommand { action: HelperAction::CoolBoost, argument: HelperArgument::Switch(enabled) }
}

/// Whether CoolBoost is on; a state that could not be read counts as off.
pub fn get_coolboost(state: Option<bool>) -> (enabled: bool)
    ensures
        enabled <==> state == Some(true),
{
    match state {
        Some(enabled) => enabled,
        None => false,
    }
}

/// Whether the kernel lets software set fan speeds: the helper says `1`.
pub fn pwm_available(reply: Option<&str>) -> (available: bool)
    ensures
        available <==> (reply matches Some(text) && text@ == "1"@),
{
    match reply {
        Some(text) => same_text(text, "1"),
        None => false,
    }
}

/// The speed in a reply of the helper, if it holds one.
pub open spec fn speed_read(reply: Option<&str>) -> Option<u16> {
    match reply {
        Some(text) => parsed_u16(text@),
        None => None,
    }
}

/// The speed in a reply of the helper.
pub fn pwm_reading(reply: Option<&str>) -> (value: Option<u16>)
    ensures
        value == speed_read(reply),
{
    match reply {
        Some(text) => parse_u16(text),
        None => None,
    }
}

/// The percentage, from 0 to 100, for a value read from the kernel.
pub fn pwm_percent(value: u16) -> (pct: u8)
    ensures
        pct == percent_of_pwm(value as int),
        pct <= 100,
{
    let capped: u16 = if value < PWM_VALUE_MAX {
        value
    } else {
        PWM_VALUE_MAX
    };
    ((capped * PERCENT_MAX) / PWM_VALUE_MAX) as u8
}

/// The CPU and GPU fan speeds in percent, from 0 to 100, from the helper's two
/// replies; nothing if either reply is missing or holds no number.
pub fn get_pwm_percent(cpu: Option<&str>, gpu: Option<&str>) -> (percent: Option<(u8, u8)>)
    ensures
        match (speed_read(cpu), speed_read(gpu)) {
            (Some(c), Some(g)) => percent matches Some(p) && p.0 == percent_of_pwm(c as int) && p.1
                == percent_of_pwm(g as int) && p.0 <= 100 && p.1 <= 100,
            _ => percent is None,
        },
        match percent {
            Some(p) => percents_read(speed_read(cpu), speed_read(gpu)) == Some(
                (p.0 as int, p.1 as int),
            ),
            None => percents_read(speed_read(cpu), speed_read(gpu)) is None,
        },
{
    match (pwm_reading(cpu), pwm_reading(gpu)) {
        (Some(c), Some(g)) => Some((pwm_percent(c), pwm_percent(g))),
        _ => None,
    }
}

/// A percentage reads back as itself when it is a multiple of twenty, and as
/// one less otherwise: neither division keeps its remainder.
pub proof fn percent_reads_back(pct: int)
    requires
        0 <= pct <= 100,
    ensures
        0 <= pwm_of_percent(pct) <= PWM_VALUE_MAX,
        percent_of_pwm(pwm_of_percent(pct)) == if pct % 20 == 0 {
            pct
        } else {
            pct - 1
        },
{
}

/// What the helper is sent for any percentage, handed back as the text of a
/// reading, gives that percentage, no more than 100, or one less.
pub proof fn written_speed_reads_back(pct: u8, reply: &str)
    requires
        reply@ == decimal(pwm_of_percent(pct as int) as nat),
    ensures
        speed_read(Some(reply)) == Some(pwm_of_percent(pct as int) as u16),
        ({
            let capped = if pct < PERCENT_MAX {
                pct as int
            } else {
                PERCENT_MAX as int
            };
            percent_of_pwm(speed_read(Some(reply))->0 as int) == if capped % 20 == 0 {
                capped
            } else {
                capped - 1
            }
        }),
{
    let capped = if pct < PERCENT_MAX {
        pct as int
    } else {
        PERCENT_MAX as int
    };
    percent_reads_back(capped);
    decimal_reads_back(pwm_of_percent(pct as int) as u16);
}

/// More percent never means a lower value, full speed is full speed, and more
/// than full speed is no more than that.
pub proof fn speeds_keep_their_order(a: int, b: int)
    requires
        0 <= a <= b,
    ensures
        pwm_of_percent(a) <= pwm_of_percent(b) <= pwm_of_percent(100),
        pwm_of_percent(0) == 0,
        pwm_of_percent(100) == PWM_VALUE_MAX,
{
}

/// On a curve that never goes down, a hotter reading never sends the fans a
/// lower value.
pub proof fn hotter_never_sends_less(a: Celsius, b: Celsius, steps: Seq<u8>)
    requires
        !a.is_nan_spec(),
        !b.is_nan_spec(),
        a.value() <= b.value(),
        steps.len() == 6,
        rising(steps),
    ensures
        pwm_of_percent(steps[curve_step(a)] as int) <= pwm_of_percent(steps[curve_step(b)] as int),
{
    hotter_never_slows_the_fans(a, b, steps);
    speeds_keep_their_order(steps[curve_step(a)] as int, steps[curve_step(b)] as int);
}

/// Every value reads as a percentage from 0 to 100, full speed and more as 100,
/// and a higher value never as a lower percentage.
pub proof fn readings_are_percentages(value: int, higher: int)
    requires
        0 <= value <= higher,
    ensures
        0 <= percent_of_pwm(value) <= percent_of_pwm(higher) <= 100,
        value >= PWM_VALUE_MAX ==> percent_of_pwm(value) == 100,
        value <= PWM_VALUE_MAX ==> percent_of_pwm(value) == value * 100 / 255,
{
}

/// No fan gets a speed unless both were put under manual control first.
pub proof fn no_speed_without_manual_control(cpu_pct: u8, gpu_pct: u8, oks: Seq<bool>)
    requires
        oks.len() < 4,
        position_after(4, oks) < 4,
        speed_commands(cpu_pct, gpu_pct)[position_after(4, oks) as int].argument is Value,
    ensures
        oks.len() >= 2,
        oks[0] && oks[1],
{
    script_stops_at_the_first_failure(4, oks);
}

/// The value for a percentage is the largest whose share of 255 is no more than
/// the share of 100, the percentage counted as 100 at most; and back the same.
pub proof fn shares_are_rounded_down(pct: int, value: int)
    requires
        0 <= pct,
        0 <= value,
    ensures
        ({
            let capped = if pct <= 100 {
                pct
            } else {
                100
            };
            100 * pwm_of_percent(pct) <= 255 * capped < 100 * (pwm_of_percent(pct) + 1)
        }),
        ({
            let capped = if value <= 255 {
                value
            } else {
                255
            };
            255 * percent_of_pwm(value) <= 100 * capped < 255 * (percent_of_pwm(value) + 1)
        }),
{
}

/// Setting the speeds sends one value to each fan, worked out from that fan's
/// own percentage alone, and before either of them one word of manual control
/// to each fan.
pub proof fn each_fan_gets_its_own_speed(cpu_pct: u8, gpu_pct: u8)
    ensures
        ({
            let commands = speed_commands(cpu_pct, gpu_pct);
            let cpu = if cpu_pct <= 100 {
                cpu_pct as int
            } else {
                100
            };
            let gpu = if gpu_pct <= 100 {
                gpu_pct as int
            } else {
                100
            };
            &&& commands.len() == 4
            &&& forall|i: int|
                0 <= i < 4 ==> {
                    &&& (#[trigger] commands[i]).action == HelperAction::PwmCpuEnable <==> i == 0
                    &&& commands[i].action == HelperAction::PwmGpuEnable <==> i == 1
                    &&& commands[i].action == HelperAction::PwmCpu <==> i == 2
                    &&& commands[i].action == HelperAction::PwmGpu <==> i == 3
                    &&& i < 2 ==> commands[i].argument == HelperArgument::ControlMode(
                        PwmControlMode::Manual,
                    )
                }
            &&& commands[2].argument == HelperArgument::Value((cpu * 255 / 100) as u16)
            &&& commands[3].argument == HelperArgument::Value((gpu * 255 / 100) as u16)
        }),
{
}

/// The speed of one fan changes nothing of what the other is sent, and swapping
/// the two percentages swaps the two values.
pub proof fn the_fans_do_not_mix(cpu_pct: u8, gpu_pct: u8, another: u8)
    ensures
        speed_commands(cpu_pct, gpu_pct)[2] == speed_commands(cpu_pct, another)[2],
        speed_commands(cpu_pct, gpu_pct)[3] == speed_commands(another, gpu_pct)[3],
        speed_commands(cpu_pct, gpu_pct)[2].argument == speed_commands(gpu_pct, cpu_pct)[3].argument,
{
}

/// A reply holds the number that its text holds, and a missing reply none.
pub proof fn a_reply_is_read_as_its_text(reply: &str)
    ensures
        speed_read(Some(reply)) == parsed_u16(reply@),
        speed_read(None) is None,
{
}

/// Giving the fans back sends each of them one word of automatic control and no
/// speed.
pub proof fn both_fans_are_given_back()
    ensures
        release_commands().len() == 2,
        release_commands()[0].action == HelperAction::PwmCpuEnable,
        release_commands()[1].action == HelperAction::PwmGpuEnable,
        forall|i: int|
            0 <= i < 2 ==> (#[trigger] release_commands()[i]).argument
                == HelperArgument::ControlMode(PwmControlMode::Automatic),
{
}

/// The curve's worker writes exactly where it is allowed to, and then sends both
/// fans the same value, that of the speed it was given.
pub proof fn the_curve_drives_both_fans_alike(allowed: bool, pct: u8)
    ensures
        curve_commands(allowed, pct) is Some <==> allowed,
        curve_commands(allowed, pct) matches Some(commands) ==> {
            let capped = if pct <= 100 {
                pct as int
            } else {
                100
            };
            &&& commands.len() == 4
            &&& commands[0].action == HelperAction::PwmCpuEnable
            &&& commands[1].action == HelperAction::PwmGpuEnable
            &&& commands[2].action == HelperAction::PwmCpu
            &&& commands[3].action == HelperAction::PwmGpu
            &&& commands[2].argument == HelperArgument::Value((capped * 255 / 100) as u16)
            &&& commands[3].argument == commands[2].argument
        },
{
    each_fan_gets_its_own_speed(pct, pct);
}

/// Percentages come back exactly where both values are there, each from its own
/// fan's value alone, and none of them is above 100.
pub proof fn each_fan_is_read_on_its_own(cpu: Option<u16>, gpu: Option<u16>)
    ensures
        percents_read(cpu, gpu) is Some <==> cpu is Some && gpu is Some,
        percents_read(cpu, gpu) matches Some(p) ==> {
            let c = if cpu->0 <= 255 {
                cpu->0 as int
            } else {
                255
            };
            let g = if gpu->0 <= 255 {
                gpu->0 as int
            } else {
                255
            };
            p.0 == c * 100 / 255 && p.1 == g * 100 / 255 && 0 <= p.0 <= 100 && 0 <= p.1 <= 100
        },
{
}

} // verus!
