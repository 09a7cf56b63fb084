use libinput_rs::commands::{
    fallback_without_tools, is_recovery, profile_command, Fallback, ProfileCommand,
};

#[test]
fn the_main_tool_explains_itself_without_its_helpers() {
    assert_eq!(fallback_without_tools(None), Fallback::Help);
    assert_eq!(fallback_without_tools(Some("-V")), Fallback::Version);
    assert_eq!(fallback_without_tools(Some("help")), Fallback::Help);
    assert_eq!(fallback_without_tools(Some("record")), Fallback::Unavailable);
    assert!(is_recovery(Some("elan-recover")));
    assert!(!is_recovery(Some("record")));
    assert!(!is_recovery(None));
}

#[test]
fn the_profile_tool_takes_exact_arguments() {
    assert_eq!(profile_command(Some("--auto"), 1), ProfileCommand::Auto);
    assert_eq!(profile_command(Some("--auto"), 2), ProfileCommand::Invalid);
    assert_eq!(profile_command(Some("--identify"), 2), ProfileCommand::Identify);
    assert_eq!(profile_command(Some("--identify"), 1), ProfileCommand::Invalid);
    assert_eq!(profile_command(Some("--list-profiles"), 1), ProfileCommand::ListProfiles);
    assert_eq!(profile_command(Some("-h"), 3), ProfileCommand::Help);
    assert_eq!(profile_command(None, 0), ProfileCommand::Help);
}
