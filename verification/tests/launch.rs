use srvany_rs::config::{LaunchConfig, Lookups};
use srvany_rs::launch::LaunchPlan;

fn text(s: &str) -> String {
    s.to_string()
}

fn config(environment: Option<Vec<String>>) -> LaunchConfig {
    LaunchConfig::load(Lookups {
        executable_path: Some(text("C:\\bin\\echo.bin")),
        working_directory: Some(text("C:\\work")),
        argument_string: Some(text("one \"two three\"")),
        environment,
        restart_on_exit: Some(1),
    })
    .unwrap()
}

#[test]
fn plan_hands_on_the_configuration() {
    let plan = LaunchPlan::for_config(&config(Some(vec![text("A=1"), text("B=2")])));
    assert_eq!(
        plan,
        LaunchPlan {
            program: text("C:\\bin\\echo.bin"),
            working_directory: Some(text("C:\\work")),
            raw_arguments: Some(text("one \"two three\"")),
            environment: Some(vec![(text("A"), text("1")), (text("B"), text("2"))]),
            hide_window: true,
        }
    );
}

#[test]
fn plan_without_optional_parameters() {
    let bare = LaunchConfig::load(Lookups {
        executable_path: Some(text("echo.bin")),
        working_directory: None,
        argument_string: None,
        environment: None,
        restart_on_exit: None,
    })
    .unwrap();
    assert_eq!(
        LaunchPlan::for_config(&bare),
        LaunchPlan {
            program: text("echo.bin"),
            working_directory: None,
            raw_arguments: None,
            environment: None,
            hide_window: true,
        }
    );
}

#[test]
fn plan_never_splits_arguments() {
    let plan = LaunchPlan::for_config(&config(None));
    assert_eq!(plan.raw_arguments, Some(text("one \"two three\"")));
}

#[test]
fn empty_environment_replaces_and_absent_inherits() {
    let cleared = LaunchPlan::for_config(&config(Some(Vec::new())));
    assert_eq!(cleared.environment, Some(Vec::new()));
    let inherited = LaunchPlan::for_config(&config(None));
    assert_eq!(inherited.environment, None);
}

#[test]
fn plan_keeps_repeated_keys_in_order() {
    let plan = LaunchPlan::for_config(&config(Some(vec![text("A=1"), text("A=2")])));
    assert_eq!(
        plan.environment,
        Some(vec![(text("A"), text("1")), (text("A"), text("2"))])
    );
}

#[test]
fn plan_always_hides_the_window() {
    assert!(LaunchPlan::for_config(&config(None)).hide_window);
    assert!(LaunchPlan::for_config(&config(Some(vec![text("A=1")]))).hide_window);
}
