//! The kernel module that the application needs, and the hardware extras that
//! the settings page offers.

use vstd::prelude::*;

verus! {

/// The state of the kernel module.
#[derive(Debug)]
pub enum ModuleStatus {
    Ready,
    AlternativeDriver,
    NeedsFacerInstall,
    NeedsFacerLoad,
    MissingDependencies(Vec<String>),
}

impl ModuleStatus {
    /// A driver is at work, this module or another.
    pub open spec fn driver_works(self) -> bool {
        self is Ready || self is AlternativeDriver
    }

    /// Whether a driver is at work: the window opens on its main page, and the
    /// status dot is green. Otherwise the window opens on the setup page.
    pub fn is_usable(&self) -> (usable: bool)
        ensures
            usable == self.driver_works(),
    {
        match self {
            ModuleStatus::Ready => true,
            ModuleStatus::AlternativeDriver => true,
            _ => false,
        }
    }

    /// Whether installing the module is offered: always, unless it is ready.
    pub fn offers_install(&self) -> (offered: bool)
        ensures
            offered == !(self is Ready),
    {
        match self {
            ModuleStatus::Ready => false,
            _ => true,
        }
    }

    /// The key of the translated text for the status.
    pub fn text_key(&self) -> (key: &'static str)
        ensures
            key@ == match self {
                ModuleStatus::Ready => "module_status_ready"@,
                ModuleStatus::AlternativeDriver => "module_status_alt_driver"@,
                ModuleStatus::NeedsFacerInstall => "module_status_needs_install"@,
                ModuleStatus::NeedsFacerLoad => "module_status_needs_load"@,
                ModuleStatus::MissingDependencies(_) => "module_status_missing_deps"@,
            },
    {
        match self {
            ModuleStatus::Ready => "module_status_ready",
            ModuleStatus::AlternativeDriver => "module_status_alt_driver",
            ModuleStatus::NeedsFacerInstall => "module_status_needs_install",
            ModuleStatus::NeedsFacerLoad => "module_status_needs_load",
            ModuleStatus::MissingDependencies(_) => "module_status_missing_deps",
        }
    }
}

/// One step of an installation.
#[derive(Debug)]
pub struct SetupResult {
    pub success: bool,
    pub message: String,
}

/// What the install button shows after an installation.
#[derive(Debug, Clone, Copy, PartialEq, Eq, Structural)]
pub enum InstallButton {
    /// As it was while installing: no step was reported.
    Installing,
    Installed,
    /// Ready for another try.
    TryAgain,
}

/// What the install button shows: the last step speaks for all of them.
pub fn install_button(results: &Vec<SetupResult>) -> (button: InstallButton)
    ensures
        button == if results@.len() == 0 {
            InstallButton::Installing
        } else if results@.last().success {
            InstallButton::Installed
        } else {
            InstallButton::TryAgain
        },
{
    if results.len() == 0 {
        InstallButton::Installing
    } else if results[results.len() - 1].success {
        InstallButton::Installed
    } else {
        InstallButton::TryAgain
    }
}

/// A row of the hardware section.
#[derive(Debug, Clone, Copy, PartialEq, Eq, Structural)]
pub enum HardwareRow {
    BatteryLimiter,
    LcdOverdrive,
    BootAnimation,
    UsbCharging,
    BacklightTimeout,
    DiscreteGpu,
}

/// The capability that a row needs.
#[derive(Debug, Clone, Copy, PartialEq, Eq, Structural)]
pub struct Capabilities {
    pub battery_limit: bool,
    /// Access to the embedded controller.
    pub ec: bool,
    pub discrete_gpu: bool,
}

/// Whether a row is shown on a machine.
pub open spec fn row_shown(caps: Capabilities, row: HardwareRow) -> bool {
    match row {
        HardwareRow::BatteryLimiter => caps.battery_limit,
        HardwareRow::LcdOverdrive => caps.ec,
        HardwareRow::BootAnimation => caps.ec,
        HardwareRow::UsbCharging => caps.ec,
        HardwareRow::BacklightTimeout => caps.ec,
        HardwareRow::DiscreteGpu => caps.discrete_gpu,
    }
}

/// All rows, in the order of the page.
pub open spec fn all_rows() -> Seq<HardwareRow> {
    seq![
        HardwareRow::BatteryLimiter,
        HardwareRow::LcdOverdrive,
        HardwareRow::BootAnimation,
        HardwareRow::UsbCharging,
        HardwareRow::BacklightTimeout,
        HardwareRow::DiscreteGpu,
    ]
}

/// The rows that a machine gets, in the order of the page. Where there are
/// none, a note stands in their place.
pub fn hardware_rows(caps: Capabilities) -> (rows: Vec<HardwareRow>)
    ensures
        rows@ == all_rows().filter(|row: HardwareRow| row_shown(caps, row)),
{
    let mut rows: Vec<HardwareRow> = Vec::new();
    if caps.battery_limit {
        rows.push(HardwareRow::BatteryLimiter);
    }
    if caps.ec {
        rows.push(HardwareRow::LcdOverdrive);
        rows.push(HardwareRow::BootAnimation);
        rows.push(HardwareRow::UsbCharging);
        rows.push(HardwareRow::BacklightTimeout);
    }
    if caps.discrete_gpu {
        rows.push(HardwareRow::DiscreteGpu);
    }
    proof {
        let shown = |row: HardwareRow| row_shown(caps, row);
        let all = all_rows();
        assert(all.drop_last().drop_last().drop_last().drop_last().drop_last().drop_last()
            =~= Seq::<HardwareRow>::empty());
        reveal_with_fuel(Seq::filter, 7);
        assert(rows@ =~= all.filter(shown));
    }
    rows
}

/// How the graphics are wired.
#[derive(Debug, Clone, Copy, PartialEq, Eq, Structural)]
pub enum GpuMode {
    Hybrid,
    DiscreteOnly,
}

/// Whether the switch for the discrete GPU is on; a mode that could not be
/// read counts as off.
pub fn gpu_switch(mode: Option<GpuMode>) -> (on: bool)
    ensures
        on <==> mode == Some(GpuMode::DiscreteOnly),
{
    match mode {
        Some(GpuMode::DiscreteOnly) => true,
        _ => false,
    }
}

/// The mode that the switch asks for.
pub fn gpu_mode(active: bool) -> (mode: GpuMode)
    ensures
        mode == if active {
            GpuMode::DiscreteOnly
        } else {
            GpuMode::Hybrid
        },
{
    if active {
        GpuMode::DiscreteOnly
    } else {
        GpuMode::Hybrid
    }
}

/// The note about missing extras shows exactly where the machine has none of
/// the capabilities.
pub proof fn the_note_shows_where_nothing_else_does(caps: Capabilities)
    ensures
        all_rows().filter(|row: HardwareRow| row_shown(caps, row)).len() == 0 <==> !caps.battery_limit
            && !caps.ec && !caps.discrete_gpu,
{
    let shown = |row: HardwareRow| row_shown(caps, row);
    let all = all_rows();
    assert(all.drop_last().drop_last().drop_last().drop_last().drop_last().drop_last()
        =~= Seq::<HardwareRow>::empty());
    reveal_with_fuel(Seq::filter, 7);
}

/// A machine gets exactly the rows that its capabilities call for: one for the
/// battery limit, four for the embedded controller, one for the discrete GPU.
pub proof fn rows_follow_the_capabilities(caps: Capabilities)
    ensures
        ({
            let rows = all_rows().filter(|row: HardwareRow| row_shown(caps, row));
            &&& rows.contains(HardwareRow::BatteryLimiter) <==> caps.battery_limit
            &&& rows.contains(HardwareRow::LcdOverdrive) <==> caps.ec
            &&& rows.contains(HardwareRow::BootAnimation) <==> caps.ec
            &&& rows.contains(HardwareRow::UsbCharging) <==> caps.ec
            &&& rows.contains(HardwareRow::BacklightTimeout) <==> caps.ec
            &&& rows.contains(HardwareRow::DiscreteGpu) <==> caps.discrete_gpu
            &&& rows.len() == (if caps.battery_limit {
                1int
            } else {
                0
            }) + (if caps.ec {
                4int
            } else {
                0
            }) + (if caps.discrete_gpu {
                1int
            } else {
                0
            })
        }),
{
    let shown = |row: HardwareRow| row_shown(caps, row);
    let all = all_rows();
    assert(all.drop_last().drop_last().drop_last().drop_last().drop_last().drop_last()
        =~= Seq::<HardwareRow>::empty());
    reveal_with_fuel(Seq::filter, 7);
    let rows = all.filter(shown);
    assert forall|row: HardwareRow| rows.contains(row) <==> #[trigger] row_shown(caps, row) by {
        if rows.contains(row) {
            let i = choose|i: int| 0 <= i < rows.len() && rows[i] == row;
            all.lemma_filter_pred(shown, i);
        }
        if row_shown(caps, row) {
            lemma_every_row_is_listed(row);
            let i = choose|i: int| 0 <= i < all.len() && all[i] == row;
            all.lemma_filter_contains(shown, i);
        }
    }
}

/// Every row has a place on the page.
proof fn lemma_every_row_is_listed(row: HardwareRow)
    ensures
        exists|i: int| 0 <= i < all_rows().len() && all_rows()[i] == row,
{
    let all = all_rows();
    assert(all[0] == HardwareRow::BatteryLimiter && all[1] == HardwareRow::LcdOverdrive && all[2]
        == HardwareRow::BootAnimation && all[3] == HardwareRow::UsbCharging && all[4]
        == HardwareRow::BacklightTimeout && all[5] == HardwareRow::DiscreteGpu);
}

/// The window opens on its main page with one driver or the other at work.
pub proof fn when_the_main_page_opens(status: ModuleStatus)
    ensures
        status.driver_works() <==> !(status is NeedsFacerInstall || status is NeedsFacerLoad
            || status is MissingDependencies),
{
}

} // verus!
