use server_panel::identify::{ProcessEntry, bulk_stop_command, group_pattern, select_targets};
use server_panel::text::{str_contains, str_eq};

fn entry(pid: u64, command_line: &str) -> ProcessEntry {
    ProcessEntry { pid, command_line: command_line.to_string() }
}

#[test]
fn targets_exactly_the_tagged_entries_in_order() {
    let table = vec![
        entry(100, "cargo run --bin wicked-waifus-config-server"),
        entry(200, "notepad.exe"),
        entry(300, "cargo run --bin wicked-waifus-login-server"),
        entry(400, "cargo build --release"),
        entry(500, "cargo run  --bin wicked-waifus-game-server"),
    ];
    let pattern = group_pattern();
    let targets = select_targets(&table, pattern.as_str());
    assert_eq!(targets, vec![100, 300, 500]);
}

#[test]
fn no_tagged_entries_yields_an_empty_target_set() {
    let table = vec![entry(1, "cargo test"), entry(2, "explorer.exe")];
    let targets = select_targets(&table, "wicked-waifus");
    assert!(targets.is_empty());
}

#[test]
fn empty_table_yields_an_empty_target_set() {
    let table: Vec<ProcessEntry> = Vec::new();
    let targets = select_targets(&table, "wicked-waifus");
    assert!(targets.is_empty());
}

#[test]
fn group_pattern_is_the_distinguishing_substring() {
    assert_eq!(group_pattern(), "wicked-waifus");
}

#[test]
fn bulk_stop_command_carries_the_group_pattern() {
    let cmd = bulk_stop_command();
    assert!(cmd.contains("wicked-waifus"));
    assert_eq!(
        cmd,
        "Get-Process -Name cargo | ForEach-Object { $id = $_.Id; \
         $cmdLine = (Get-CimInstance Win32_Process -Filter \"ProcessId = $id\").CommandLine; \
         if ($cmdLine -like '*wicked-waifus*') { taskkill /F /PID $id } }"
    );
}

#[test]
fn str_contains_finds_needles_at_every_position() {
    assert!(str_contains("wicked-waifus-game-server", "wicked-waifus"));
    assert!(str_contains("abc", "a"));
    assert!(str_contains("abc", "c"));
    assert!(str_contains("abc", "abc"));
    assert!(str_contains("abc", ""));
    assert!(str_contains("", ""));
    assert!(!str_contains("abc", "abcd"));
    assert!(!str_contains("abc", "z"));
    assert!(!str_contains("", "a"));
    assert!(str_contains("aab", "ab"));
}

#[test]
fn str_eq_compares_character_by_character() {
    assert!(str_eq("", ""));
    assert!(str_eq("abc", "abc"));
    assert!(!str_eq("abc", "abd"));
    assert!(!str_eq("abc", "ab"));
    assert!(!str_eq("ab", "abc"));
}
