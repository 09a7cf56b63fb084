use libinput_rs::elan_recover::{
    affected_thinkpad_p53, bound_controllers, parse_recover_options, plan_recovery, valid_i2c_id, Action, Failure,
    Goal, Outcome, Plan, RecoverOptions, Request, Stage,
};

#[test]
fn accepts_only_canonical_i2c_identifiers() {
    assert!(valid_i2c_id("5-0015"));
    assert!(valid_i2c_id("12-00AF"));
    assert!(!valid_i2c_id("../elan_i2c"));
    assert!(!valid_i2c_id("5-15"));
    assert!(!valid_i2c_id("i2c-5-0015"));
}

#[test]
fn affected_machine_gate_fails_closed_without_dmi() {
    assert!(!affected_thinkpad_p53(None, None));
}

#[test]
fn affected_machines_are_told_by_vendor_and_version() {
    assert!(affected_thinkpad_p53(Some("LENOVO"), Some("ThinkPad P53")));
    assert!(!affected_thinkpad_p53(Some("LENOVO"), Some("ThinkPad P52")));
    assert!(!affected_thinkpad_p53(Some("Dell Inc."), Some("ThinkPad P53")));
}

#[test]
fn recovery_unbinds_settles_and_binds() {
    let (stage, _) = Stage::begin("5-0015", true);
    assert_eq!(stage, Stage::Unbinding);
    let (stage, _) = stage.recover(Outcome::Succeeded, 0);
    assert!(matches!(stage, Stage::Waiting { goal: Goal::Unbound, .. }));
    let (stage, _) = stage.recover(Outcome::Succeeded, 1);
    assert_eq!(stage, Stage::Settling);
    let (stage, _) = stage.recover(Outcome::Slept, 2);
    assert_eq!(stage, Stage::Binding { attempt: 0 });
    let (stage, _) = stage.recover(Outcome::Failed, 3);
    assert_eq!(stage, Stage::Retrying { attempt: 1 });
    let (stage, _) = stage.recover(Outcome::Slept, 4);
    let (stage, _) = stage.recover(Outcome::Succeeded, 5);
    assert!(matches!(stage, Stage::Waiting { goal: Goal::Bound, .. }));
    let (stage, _) = stage.recover(Outcome::Succeeded, 6);
    assert!(matches!(stage, Stage::Waiting { goal: Goal::Nodes, .. }));
    let (stage, action) = stage.recover(Outcome::Succeeded, 7);
    assert_eq!(stage, Stage::Done);
    assert_eq!(action, Action::Stop);
}

#[test]
fn strangers_are_refused() {
    assert_eq!(
        Stage::begin("../x", true).0,
        Stage::Failed(Failure::InvalidName)
    );
    assert_eq!(
        Stage::begin("5-0015", false).0,
        Stage::Failed(Failure::NotOurs)
    );
    assert_eq!(
        Stage::Unbinding.recover(Outcome::Failed, 0).0,
        Stage::Failed(Failure::Unbind)
    );
}

#[test]
fn binding_is_given_up_after_some_attempts() {
    let mut stage = Stage::Binding { attempt: 0 };
    let mut attempts = 0;
    while !matches!(stage, Stage::Failed(_)) {
        if matches!(stage, Stage::Binding { .. }) {
            attempts += 1;
        }
        stage = stage.recover(Outcome::Failed, 0).0;
    }
    assert_eq!(stage, Stage::Failed(Failure::Bind));
    assert!(attempts > 1);
}

#[test]
fn waiting_times_out_once_the_deadline_has_passed() {
    let waiting = Stage::Waiting { goal: Goal::Bound, deadline: 10, last: false };
    let (stage, _) = waiting.recover(Outcome::Failed, 5);
    assert_eq!(stage, waiting);
    let (stage, _) = stage.recover(Outcome::Slept, 10);
    let (stage, _) = stage.recover(Outcome::Failed, 11);
    assert_eq!(stage, Stage::Failed(Failure::TimedOut));
}

fn arguments(list: &[&str]) -> Vec<Option<String>> {
    list.iter().map(|text| Some(text.to_string())).collect()
}

#[test]
fn options_are_read_in_order() {
    match parse_recover_options(&arguments(&["--device", "5-0015", "--quiet", "--all"])) {
        Request::Run(options) => {
            assert_eq!(options.requested, vec!["5-0015".to_string()]);
            assert!(options.quiet && !options.affected_only);
        }
        _ => panic!("the options are valid"),
    }
    assert!(matches!(parse_recover_options(&arguments(&["-h"])), Request::Help));
    assert!(matches!(
        parse_recover_options(&arguments(&["--device"])),
        Request::MissingDevice
    ));
    assert!(matches!(
        parse_recover_options(&arguments(&["--bogus"])),
        Request::Unknown(_)
    ));
    assert!(matches!(parse_recover_options(&vec![None]), Request::NotText));
}

#[test]
fn runs_are_planned_before_anything_is_touched() {
    let options = |affected_only: bool, requested: Vec<String>| RecoverOptions {
        requested,
        affected_only,
        quiet: false,
    };
    assert_eq!(plan_recovery(&options(true, Vec::new()), false, false, 1), Plan::Nothing);
    assert_eq!(plan_recovery(&options(false, Vec::new()), false, false, 1), Plan::NeedsRoot);
    assert_eq!(plan_recovery(&options(false, Vec::new()), false, true, 0), Plan::NoDevices);
    assert_eq!(
        plan_recovery(&options(false, Vec::new()), false, true, 2),
        Plan::RecoverDiscovered
    );
    assert_eq!(
        plan_recovery(&options(true, vec!["5-0015".to_string()]), true, true, 0),
        Plan::RecoverRequested
    );
}

#[test]
fn controllers_are_named_bound_and_in_order() {
    let entries: Vec<String> = ["bind", "7-0015", "6-0015", "5-0015", "uevent"]
        .iter()
        .map(|name| name.to_string())
        .collect();
    assert_eq!(
        bound_controllers(&entries, &vec![true, true, false, true, false]),
        vec!["5-0015".to_string(), "7-0015".to_string()]
    );
    assert!(bound_controllers(&Vec::new(), &Vec::new()).is_empty());
}
