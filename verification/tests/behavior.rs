use hue::command::{
    blink_announcement, blink_command, blink_start, blink_toggle, bulk_state_plan,
    registration_message, rename_command, rename_confirmation, requires_config, BulkRun,
    Subcommand, BLINK_INTERVAL_SECS, SCAN_WAIT_SECS,
};
use hue::config::load_config;
use hue::error::HueError;
use hue::light::{Group, Light};
use hue::locator::resolve_bridge_address;
use hue::order::{sort_by_key, str_lex_le};
use hue::render::{group_row, group_rows, join_comma, light_row, list_rows, on_cell, yes_no};

fn light(id: &str, name: &str, reachable: bool, on: Option<bool>) -> Light {
    Light { id: id.to_string(), name: name.to_string(), reachable, on }
}

fn group(id: &str, name: &str, lights: &[&str]) -> Group {
    Group {
        id: id.to_string(),
        name: name.to_string(),
        lights: lights.iter().map(|s| s.to_string()).collect(),
    }
}

#[test]
fn locator_picks_last_discovery_result() {
    let discovered = vec!["10.0.0.1".to_string(), "10.0.0.2".to_string(), "10.0.0.3".to_string()];
    let r = resolve_bridge_address(None, discovered);
    assert_eq!(r, Ok("10.0.0.3".to_string()));
}

#[test]
fn locator_fails_on_empty_discovery() {
    let r = resolve_bridge_address(None, Vec::new());
    assert_eq!(r, Err(HueError::NoBridgeFound));
    assert_eq!(
        HueError::NoBridgeFound.message(),
        "No bridge IP addresses found on the network"
    );
}

#[test]
fn locator_prefers_explicit_address() {
    let r = resolve_bridge_address(Some("192.168.1.7".to_string()), vec!["10.0.0.1".to_string()]);
    assert_eq!(r, Ok("192.168.1.7".to_string()));
}

#[test]
fn list_rows_sorted_by_identifier() {
    let lights = vec![
        light("3", "three", true, Some(true)),
        light("1", "one", true, Some(false)),
        light("2", "two", false, None),
    ];
    let rows = list_rows(lights);
    assert_eq!(rows.len(), 3);
    assert_eq!(rows[0][0], "1");
    assert_eq!(rows[1][0], "2");
    assert_eq!(rows[2][0], "3");
    assert_eq!(rows[0][1], "one");
    assert_eq!(rows[1][1], "two");
    assert_eq!(rows[2][1], "three");
}

#[test]
fn on_column_rendering() {
    let unknown = light_row(&light("1", "a", true, None));
    assert_eq!(unknown[3], "-");
    let on = light_row(&light("1", "a", true, Some(true)));
    assert_eq!(on[3], "yes");
    let off = light_row(&light("1", "a", true, Some(false)));
    assert_eq!(off[3], "no");
}

#[test]
fn reachable_column_rendering() {
    let row = light_row(&light("4", "hall", false, Some(true)));
    assert_eq!(row, vec!["4", "hall", "no", "yes"]);
    assert_eq!(yes_no(true), "yes");
    assert_eq!(on_cell(None), "-");
}

#[test]
fn group_lights_join_preserves_given_order() {
    let g = group("7", "upstairs", &["1", "5", "9"]);
    let row = group_row(&g);
    assert_eq!(row, vec!["7", "upstairs", "1,5,9"]);
    let reversed = group("7", "upstairs", &["9", "1"]);
    assert_eq!(group_row(&reversed)[2], "9,1");
}

#[test]
fn join_edge_cases() {
    assert_eq!(join_comma(&Vec::new()), "");
    assert_eq!(join_comma(&vec!["42".to_string()]), "42");
}

#[test]
fn group_rows_sorted_by_identifier() {
    let groups = vec![group("2", "b", &[]), group("10", "a", &["3"])];
    let rows = group_rows(groups);
    assert_eq!(rows[0][0], "10");
    assert_eq!(rows[1][0], "2");
}

#[test]
fn bulk_plan_one_command_per_light_ascending() {
    let lights = vec![
        light("2", "two", true, Some(false)),
        light("10", "ten", true, None),
        light("1", "one", false, Some(true)),
    ];
    let plan = bulk_state_plan(lights, true);
    assert_eq!(plan.len(), 3);
    let ids: Vec<&str> = plan.iter().map(|c| c.id.as_str()).collect();
    assert_eq!(ids, vec!["1", "10", "2"]);
    assert!(plan.iter().all(|c| c.on));

    let off_plan = bulk_state_plan(vec![light("5", "five", true, None)], false);
    assert_eq!(off_plan.len(), 1);
    assert!(!off_plan[0].on);
}

#[test]
fn bulk_run_stops_at_first_failure() {
    let lights = vec![
        light("1", "one", true, None),
        light("2", "two", true, None),
        light("3", "three", true, None),
    ];
    let mut run = BulkRun::start(bulk_state_plan(lights, true));

    let first = run.pending().expect("first command pending").id.clone();
    assert_eq!(first, "1");
    run.record(true);

    let second = run.pending().expect("second command pending").id.clone();
    assert_eq!(second, "2");
    run.record(false);

    assert!(run.pending().is_none());
    assert_eq!(run.next, 1);
    assert!(run.failed);
}

#[test]
fn bulk_run_completes_when_all_succeed() {
    let mut run = BulkRun::start(bulk_state_plan(vec![light("1", "one", true, None)], false));
    assert!(run.pending().is_some());
    run.record(true);
    assert!(run.pending().is_none());
    assert!(!run.failed);
}

#[test]
fn config_load_fails_without_file() {
    assert_eq!(load_config(None), Err(HueError::ConfigFileMissing));
}

#[test]
fn config_load_fails_without_username_entry() {
    let r = load_config(Some("bridge = \"10.0.0.1\"\n".to_string()));
    assert_eq!(r, Err(HueError::ConfigMissingUsername));
}

#[test]
fn config_load_fails_when_username_not_a_string() {
    let r = load_config(Some("username = 5\n".to_string()));
    assert_eq!(r, Err(HueError::ConfigMissingUsername));
}

#[test]
fn config_load_fails_on_malformed_toml() {
    let r = load_config(Some("username = \n][".to_string()));
    assert_eq!(r, Err(HueError::ConfigInvalid));
}

#[test]
fn config_load_reads_username() {
    let r = load_config(Some("username = \"hue-user-1\"\n".to_string()));
    let config = r.expect("config should load");
    assert_eq!(config.username, "hue-user-1");
}

#[test]
fn register_needs_no_config() {
    assert!(!requires_config(&Subcommand::Register));
    assert!(requires_config(&Subcommand::Scan));
    assert!(requires_config(&Subcommand::List));
    assert!(requires_config(&Subcommand::ListGroups));
    assert!(requires_config(&Subcommand::AllOn));
    assert!(requires_config(&Subcommand::AllOff));
    assert!(requires_config(&Subcommand::Blink { id: "1".to_string() }));
}

#[test]
fn blink_alternates_starting_on() {
    let st = blink_start();
    assert!(st.on);
    let cmd = blink_command("4", &st);
    assert_eq!(cmd.id, "4");
    assert!(cmd.on);
    let st2 = blink_toggle(&st);
    assert!(!st2.on);
    let cmd2 = blink_command("4", &st2);
    assert!(!cmd2.on);
    assert_eq!(blink_toggle(&st2), st);
}

#[test]
fn rename_builds_command_and_confirmation() {
    let cmd = rename_command("3", "Kitchen");
    assert_eq!(cmd.id, "3");
    assert_eq!(cmd.name, "Kitchen");
    assert_eq!(
        rename_confirmation("3", "Kitchen"),
        "Set light 3 name to \"Kitchen\""
    );
}

#[test]
fn status_messages() {
    assert_eq!(blink_announcement("8"), "Blinking light 8...");
    assert_eq!(registration_message("new-user"), "Username: new-user");
    assert_eq!(
        HueError::ConfigFileMissing.message(),
        "no hue config file found in .config/hue"
    );
    assert_eq!(HueError::ConfigInvalid.message(), "failed to parse config file");
    assert_eq!(
        HueError::ConfigMissingUsername.message(),
        "config file has no username entry"
    );
}

#[test]
fn wait_durations() {
    assert_eq!(SCAN_WAIT_SECS, 40);
    assert_eq!(BLINK_INTERVAL_SECS, 1);
}

#[test]
fn string_order_is_lexicographic() {
    assert!(str_lex_le("1", "10"));
    assert!(str_lex_le("10", "9"));
    assert!(!str_lex_le("9", "10"));
    assert!(str_lex_le("abc", "abc"));
    assert!(str_lex_le("", "a"));
    assert!(!str_lex_le("a", ""));
}

#[test]
fn sort_keeps_duplicates() {
    let lights = vec![
        light("2", "b", true, None),
        light("1", "a", true, None),
        light("2", "c", true, None),
    ];
    let sorted = sort_by_key(lights);
    let ids: Vec<&str> = sorted.iter().map(|l| l.id.as_str()).collect();
    assert_eq!(ids, vec!["1", "2", "2"]);
    let names: Vec<&str> = sorted.iter().map(|l| l.name.as_str()).collect();
    assert!(names.contains(&"b") && names.contains(&"c"));
}
