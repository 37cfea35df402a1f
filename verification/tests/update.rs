use gi::exit_code_of;
use gi::update::{is_up_trigger, up_branch, up_commands, up_decision};

fn args(xs: &[&str]) -> Vec<String> {
    xs.iter().map(|s| s.to_string()).collect()
}

#[test]
fn up_feature_three_steps() {
    let cmds = up_commands(&"feature".to_string());
    assert_eq!(cmds.len(), 3);
    assert_eq!(cmds[0], args(&["switch", "feature"]));
    assert_eq!(cmds[1], args(&["fetch", "-p"]));
    assert_eq!(cmds[2], args(&["rebase", "origin/feature"]));
}

#[test]
fn up_default_branch_is_main() {
    assert_eq!(up_branch(&Vec::new()), "main".to_string());
}

#[test]
fn up_branch_taken_from_args() {
    assert_eq!(up_branch(&args(&["dev", "ignored"])), "dev".to_string());
}

#[test]
fn up_stops_on_failure_with_its_code() {
    assert_eq!(up_decision(0, false, Some(3)), Some(3));
    assert_eq!(up_decision(1, false, Some(2)), Some(2));
}

#[test]
fn up_goes_on_while_steps_succeed() {
    assert_eq!(up_decision(0, true, Some(0)), None);
    assert_eq!(up_decision(1, true, Some(0)), None);
}

#[test]
fn up_last_step_always_reports_its_code() {
    assert_eq!(up_decision(2, true, Some(0)), Some(0));
    assert_eq!(up_decision(2, false, Some(4)), Some(4));
}

#[test]
fn up_reports_one_without_a_code() {
    assert_eq!(up_decision(0, false, None), Some(1));
    assert_eq!(up_decision(2, true, None), Some(1));
}

#[test]
fn up_triggers() {
    assert!(is_up_trigger(&"up".to_string()));
    assert!(is_up_trigger(&"update".to_string()));
    assert!(!is_up_trigger(&"u".to_string()));
    assert!(!is_up_trigger(&"git".to_string()));
}

#[test]
fn exit_code_mirrors_child() {
    assert_eq!(exit_code_of(Some(5)), 5);
    assert_eq!(exit_code_of(Some(0)), 0);
}

#[test]
fn exit_code_one_when_indeterminate() {
    assert_eq!(exit_code_of(None), 1);
}
