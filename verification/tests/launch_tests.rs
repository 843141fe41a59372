use server_panel::launch::{
    SpawnSpec, client_executable, elevate_command, get_window_title_prefix, launch_plan,
    server_command, server_names, terminal_args, terminal_host_image, window_title,
};

#[test]
fn window_title_prefix_tags_the_group() {
    assert_eq!(get_window_title_prefix(), "WW_");
}

#[test]
fn window_title_is_prefix_plus_name() {
    assert_eq!(window_title("wicked-waifus-config-server"), "WW_wicked-waifus-config-server");
    assert_eq!(window_title(""), "WW_");
}

#[test]
fn server_names_lists_the_four_members_in_start_order() {
    let v = server_names();
    assert_eq!(
        v,
        vec![
            "wicked-waifus-config-server".to_string(),
            "wicked-waifus-login-server".to_string(),
            "wicked-waifus-gateway-server".to_string(),
            "wicked-waifus-game-server".to_string(),
        ]
    );
}

#[test]
fn server_command_in_debug_mode() {
    assert_eq!(
        server_command("C:\\ww", false, "wicked-waifus-game-server"),
        "cd /d C:\\ww && cargo run  --bin wicked-waifus-game-server && pause"
    );
}

#[test]
fn server_command_in_release_mode() {
    assert_eq!(
        server_command("C:\\ww", true, "wicked-waifus-game-server"),
        "cd /d C:\\ww && cargo run --release --bin wicked-waifus-game-server && pause"
    );
}

#[test]
fn launch_plan_builds_one_tagged_spawn_per_member() {
    let names = vec!["alpha".to_string(), "beta".to_string()];
    let plan = launch_plan("C:\\ww", false, &names);
    assert_eq!(plan.len(), 2);
    assert_eq!(plan[0].title, "WW_alpha");
    assert_eq!(plan[0].command, "cd /d C:\\ww && cargo run  --bin alpha && pause");
    assert_eq!(plan[1].title, "WW_beta");
    assert_eq!(plan[1].command, "cd /d C:\\ww && cargo run  --bin beta && pause");
}

#[test]
fn terminal_args_open_the_first_tab_and_add_the_rest() {
    let specs = vec![
        SpawnSpec { title: "WW_a".to_string(), command: "run a".to_string() },
        SpawnSpec { title: "WW_b".to_string(), command: "run b".to_string() },
    ];
    let args = terminal_args(&specs);
    assert_eq!(
        args,
        vec![
            "--title".to_string(),
            "WW_a".to_string(),
            "cmd".to_string(),
            "/c".to_string(),
            "run a".to_string(),
            ";".to_string(),
            "new-tab".to_string(),
            "--title".to_string(),
            "WW_b".to_string(),
            "cmd".to_string(),
            "/c".to_string(),
            "run b".to_string(),
        ]
    );
}

#[test]
fn terminal_args_of_an_empty_plan_are_empty() {
    let specs: Vec<SpawnSpec> = Vec::new();
    assert!(terminal_args(&specs).is_empty());
}

#[test]
fn elevate_command_quotes_the_client_path() {
    assert_eq!(
        elevate_command("C:\\panel\\launcher.exe"),
        "Start-Process -FilePath \"C:\\panel\\launcher.exe\" -Verb RunAs"
    );
}

#[test]
fn client_executable_name() {
    assert_eq!(client_executable(), "launcher.exe");
}

#[test]
fn terminal_host_is_killed_by_its_well_known_image_name() {
    assert_eq!(terminal_host_image(), "WindowsTerminal.exe");
}
