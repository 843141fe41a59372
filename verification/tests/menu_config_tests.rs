use server_panel::config::{Config, effective_release, settings_path_components};
use server_panel::menu::{MenuAction, is_yes, parse_choice};

#[test]
fn each_menu_digit_selects_its_action() {
    assert_eq!(parse_choice("1"), Some(MenuAction::StartAll));
    assert_eq!(parse_choice("2"), Some(MenuAction::RestartAll));
    assert_eq!(parse_choice("3"), Some(MenuAction::StopAll));
    assert_eq!(parse_choice("4"), Some(MenuAction::Exit));
    assert_eq!(parse_choice("5"), Some(MenuAction::StartAndLaunchClient));
}

#[test]
fn unrecognized_input_selects_nothing() {
    assert_eq!(parse_choice(""), None);
    assert_eq!(parse_choice("6"), None);
    assert_eq!(parse_choice("0"), None);
    assert_eq!(parse_choice("11"), None);
    assert_eq!(parse_choice(" 1"), None);
    assert_eq!(parse_choice("start"), None);
}

#[test]
fn only_the_letter_y_confirms() {
    assert!(is_yes("y"));
    assert!(is_yes("Y"));
    assert!(!is_yes("n"));
    assert!(!is_yes("yes"));
    assert!(!is_yes(""));
}

#[test]
fn release_flag_defaults_to_debug() {
    let absent = Config { project_path: "C:\\ww".to_string(), release: None };
    let off = Config { project_path: "C:\\ww".to_string(), release: Some(false) };
    let on = Config { project_path: "C:\\ww".to_string(), release: Some(true) };
    assert!(!effective_release(&absent));
    assert!(!effective_release(&off));
    assert!(effective_release(&on));
}

#[test]
fn settings_path_for_the_regular_terminal() {
    let v = settings_path_components(false);
    assert_eq!(
        v,
        vec![
            "AppData".to_string(),
            "Local".to_string(),
            "Packages".to_string(),
            "Microsoft.WindowsTerminal_8wekyb3d8bbwe".to_string(),
            "LocalState".to_string(),
            "settings.json".to_string(),
        ]
    );
}

#[test]
fn settings_path_for_the_preview_terminal() {
    let v = settings_path_components(true);
    assert_eq!(v[3], "Microsoft.WindowsTerminalPreview_8wekyb3d8bbwe");
    assert_eq!(v.len(), 6);
}
