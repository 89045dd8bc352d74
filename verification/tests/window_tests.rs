use predator_sense::navigation::{
    nav_sidebar_width, page_at, page_label_key, page_name, page_place, NavKey, Navigation, Page,
    Visit, PAGE_COUNT,
};
use predator_sense::resources::{
    find_model_photo, find_resource_path, first_model, installed_resource, laptop_picture,
    ExeLocation, ResourcePlace, ResourceSearch,
};
use predator_sense::setup::{
    gpu_mode, gpu_switch, hardware_rows, install_button, Capabilities, GpuMode, HardwareRow,
    InstallButton, ModuleStatus, SetupResult,
};
use predator_sense::text::{contains_text, same_text, stem};
use predator_sense::window::{
    close_action, sync_window_suspended, CloseAction, HidePlan, TrayState, WindowFlags,
};

#[test]
fn pages_are_listed_in_order() {
    let names: Vec<&str> = (0..PAGE_COUNT)
        .map(|i| page_name(page_at(i).unwrap()))
        .collect();
    assert_eq!(
        names,
        vec![
            "home",
            "temperatures",
            "usage",
            "network",
            "lighting",
            "fan",
            "fan_ctrl",
            "battery",
            "gpu",
            "monitor",
            "tools",
            "drivers",
            "settings"
        ]
    );
    for i in 0..PAGE_COUNT {
        assert_eq!(page_place(page_at(i).unwrap()), i);
    }
    assert_eq!(page_at(PAGE_COUNT), None);
    assert_eq!(page_label_key(Page::Fan), "perf_mode");
    assert_eq!(page_label_key(Page::Drivers), "drivers_and_manuals");
}

#[test]
fn a_page_is_built_on_its_first_visit() {
    let mut nav = Navigation::new();
    assert_eq!(nav.active(), 0);
    assert_eq!(
        nav.navigate_to(3),
        Visit::Show {
            page: Page::Network,
            build: true
        }
    );
    assert_eq!(
        nav.navigate_to(0),
        Visit::Show {
            page: Page::Home,
            build: false
        }
    );
    assert_eq!(
        nav.navigate_to(3),
        Visit::Show {
            page: Page::Network,
            build: false
        }
    );
    assert!(nav.is_active(3));
    assert!(!nav.is_active(0));
    assert_eq!(nav.navigate_to(PAGE_COUNT), Visit::Ignored);
    assert_eq!(nav.navigate_to(usize::MAX), Visit::Ignored);
    assert_eq!(nav.active(), 3);
    assert!(nav.ensure_page_built(Page::Gpu));
    assert!(!nav.ensure_page_built(Page::Gpu));
    assert_eq!(nav.active(), 3);
}

#[test]
fn the_arrow_keys_stop_at_the_ends() {
    let mut nav = Navigation::new();
    assert_eq!(nav.key_pressed(NavKey::Up), Some(0));
    assert_eq!(nav.key_pressed(NavKey::Other), None);
    for i in 1..PAGE_COUNT {
        let next = nav.key_pressed(NavKey::Down).unwrap();
        assert_eq!(next, i);
        nav.navigate_to(next);
        assert_eq!(nav.key_pressed(NavKey::Up), Some(i - 1));
    }
    assert_eq!(nav.key_pressed(NavKey::Down), Some(PAGE_COUNT - 1));
}

#[test]
fn temperatures_are_redrawn_only_when_looked_at() {
    let mut nav = Navigation::new();
    assert!(!nav.temperatures_due(true));
    nav.navigate_to(1);
    assert!(nav.temperatures_due(true));
    assert!(!nav.temperatures_due(false));
}

#[test]
fn the_sidebar_is_as_wide_as_its_widest_label() {
    assert_eq!(nav_sidebar_width(&vec![]), 170);
    assert_eq!(nav_sidebar_width(&vec![10, 134, 20]), 170);
    assert_eq!(nav_sidebar_width(&vec![135]), 170);
    assert_eq!(nav_sidebar_width(&vec![10, 136, 20]), 171);
    assert_eq!(nav_sidebar_width(&vec![300, 299]), 335);
    assert_eq!(nav_sidebar_width(&vec![i32::MAX - 35]), i32::MAX);
    assert_eq!(nav_sidebar_width(&vec![-50]), 170);
}

#[test]
fn a_resource_is_looked_for_in_order() {
    let exe = ExeLocation::InDirectory;
    assert_eq!(
        find_resource_path(exe, &vec![]),
        ResourceSearch::Probe(ResourcePlace::SourceTree)
    );
    assert_eq!(
        find_resource_path(exe, &vec![true]),
        ResourceSearch::Found(ResourcePlace::SourceTree)
    );
    assert_eq!(
        find_resource_path(exe, &vec![false]),
        ResourceSearch::Probe(ResourcePlace::BesideProgram)
    );
    assert_eq!(
        find_resource_path(exe, &vec![false, true]),
        ResourceSearch::Found(ResourcePlace::BesideProgram)
    );
    assert_eq!(
        find_resource_path(exe, &vec![false, false]),
        ResourceSearch::Probe(ResourcePlace::Installed)
    );
    assert_eq!(
        find_resource_path(exe, &vec![false, false, true]),
        ResourceSearch::Found(ResourcePlace::Installed)
    );
    assert_eq!(
        find_resource_path(exe, &vec![false, false, false]),
        ResourceSearch::NotFound
    );
}

#[test]
fn an_unknown_program_has_only_the_installed_place() {
    assert_eq!(
        find_resource_path(ExeLocation::Unknown, &vec![]),
        ResourceSearch::Probe(ResourcePlace::Installed)
    );
    assert_eq!(
        find_resource_path(ExeLocation::Unknown, &vec![false]),
        ResourceSearch::NotFound
    );
    assert_eq!(
        find_resource_path(ExeLocation::NoDirectory, &vec![]),
        ResourceSearch::NotFound
    );
    assert_eq!(
        installed_resource("models"),
        "/opt/predator-sense/resources/models"
    );
}

#[test]
fn the_photo_of_the_model_is_found() {
    let files: Vec<String> = ["README", "PH317-55.png", "ph315-54.PNG", "PH315.png"]
        .iter()
        .map(|s| s.to_string())
        .collect();
    assert_eq!(find_model_photo("Predator PH315-54", &files), Some(2));
    assert_eq!(find_model_photo("Predator PH317-55", &files), Some(1));
    assert_eq!(find_model_photo("PREDATOR ph315-99", &files), Some(3));
    assert_eq!(find_model_photo("Nitro AN515", &files), None);
    assert_eq!(find_model_photo("Predator", &vec![]), None);
    let hidden = vec![".png".to_string()];
    assert_eq!(find_model_photo("Predator", &hidden), Some(0));
    let umlaut = vec!["ÄÖ.x.png".to_string()];
    assert_eq!(find_model_photo("äö.X 5", &umlaut), Some(0));
}

#[test]
fn the_first_code_that_fits_wins() {
    let codes = vec![
        None,
        Some("ph317".to_string()),
        Some("ph".to_string()),
        Some("ph315".to_string()),
    ];
    assert_eq!(first_model("predator ph315-54", &codes), Some(2));
    assert_eq!(first_model("predator ph317", &codes), Some(1));
    assert_eq!(first_model("nitro", &codes), None);
}

#[test]
fn the_picture_falls_back() {
    let some = |s: &str| Some(s.to_string());
    assert_eq!(laptop_picture(some("a"), some("b"), some("c")), some("a"));
    assert_eq!(laptop_picture(None, some("b"), some("c")), some("b"));
    assert_eq!(laptop_picture(None, None, some("c")), some("c"));
    assert_eq!(laptop_picture(None, None, None), None);
}

#[test]
fn texts_are_compared_and_searched() {
    assert!(same_text("", ""));
    assert!(same_text("ação", "ação"));
    assert!(!same_text("a", "ab"));
    assert!(!same_text("ab", "ac"));
    for (whole, part) in [
        ("", ""),
        ("abc", ""),
        ("abc", "c"),
        ("abc", "abc"),
        ("aab", "ab"),
        ("abc", "abcd"),
        ("abc", "ac"),
        ("über", "ber"),
    ] {
        assert_eq!(contains_text(whole, part), whole.contains(part));
    }
    for text in ["a.b.c", "a", "", ".", "x.", ".y", "é.z"] {
        assert_eq!(stem(text), text.rsplit_once('.').map(|(base, _)| base));
    }
}

#[test]
fn the_suspended_flag_follows_the_compositor() {
    let mut flags = WindowFlags {
        visible: true,
        suspended: false,
    };
    assert!(flags.is_shown());
    sync_window_suspended(&mut flags, Some(true));
    assert!(flags.suspended && flags.visible);
    assert!(!flags.is_shown());
    sync_window_suspended(&mut flags, None);
    assert!(flags.suspended);
    sync_window_suspended(&mut flags, Some(false));
    assert!(!flags.suspended);
    assert!(flags.is_shown());
    flags.visible = false;
    assert!(!flags.is_shown());
}

#[test]
fn closing_hides_or_closes() {
    assert_eq!(close_action(true), CloseAction::HideToTray);
    assert_eq!(close_action(false), CloseAction::Close);
}

#[test]
fn hiding_holds_the_application_once() {
    let mut flags = WindowFlags {
        visible: true,
        suspended: false,
    };
    let mut tray = TrayState::new();
    let first = tray.hide_to_tray(&mut flags);
    assert_eq!(
        first,
        HidePlan {
            hold: true,
            new_tray: true
        }
    );
    assert!(!flags.visible);
    tray.tray_started(false);
    assert_eq!(
        tray.hide_to_tray(&mut flags),
        HidePlan {
            hold: false,
            new_tray: true
        }
    );
    tray.tray_started(true);
    assert_eq!(
        tray.hide_to_tray(&mut flags),
        HidePlan {
            hold: false,
            new_tray: false
        }
    );
}

#[test]
fn a_working_driver_opens_the_main_page() {
    let cases = [
        (ModuleStatus::Ready, true, false, "module_status_ready"),
        (
            ModuleStatus::AlternativeDriver,
            true,
            true,
            "module_status_alt_driver",
        ),
        (
            ModuleStatus::NeedsFacerInstall,
            false,
            true,
            "module_status_needs_install",
        ),
        (
            ModuleStatus::NeedsFacerLoad,
            false,
            true,
            "module_status_needs_load",
        ),
        (
            ModuleStatus::MissingDependencies(vec!["dkms".to_string()]),
            false,
            true,
            "module_status_missing_deps",
        ),
    ];
    for (status, usable, install, key) in cases {
        assert_eq!(status.is_usable(), usable);
        assert_eq!(status.offers_install(), install);
        assert_eq!(status.text_key(), key);
    }
}

#[test]
fn the_last_step_of_an_installation_counts() {
    let step = |success| SetupResult {
        success,
        message: String::new(),
    };
    assert_eq!(install_button(&vec![]), InstallButton::Installing);
    assert_eq!(
        install_button(&vec![step(false), step(true)]),
        InstallButton::Installed
    );
    assert_eq!(
        install_button(&vec![step(true), step(false)]),
        InstallButton::TryAgain
    );
}

#[test]
fn hardware_rows_follow_the_capabilities() {
    let caps = |battery_limit, ec, discrete_gpu| Capabilities {
        battery_limit,
        ec,
        discrete_gpu,
    };
    assert_eq!(hardware_rows(caps(false, false, false)), vec![]);
    assert_eq!(
        hardware_rows(caps(true, false, true)),
        vec![HardwareRow::BatteryLimiter, HardwareRow::DiscreteGpu]
    );
    assert_eq!(
        hardware_rows(caps(true, true, true)),
        vec![
            HardwareRow::BatteryLimiter,
            HardwareRow::LcdOverdrive,
            HardwareRow::BootAnimation,
            HardwareRow::UsbCharging,
            HardwareRow::BacklightTimeout,
            HardwareRow::DiscreteGpu
        ]
    );
}

#[test]
fn the_gpu_switch_is_the_discrete_mode() {
    assert!(gpu_switch(Some(gpu_mode(true))));
    assert!(!gpu_switch(Some(gpu_mode(false))));
    assert!(!gpu_switch(None));
    assert_eq!(gpu_mode(true), GpuMode::DiscreteOnly);
}
