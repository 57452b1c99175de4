use agent_runtime::bootstrap::{parse_action, parse_u64, Action, BootstrapData, BootstrapError};

#[test]
fn actions_parse_exactly() {
    assert_eq!(parse_action("create"), Some(Action::Create));
    assert_eq!(parse_action("destroy"), Some(Action::Destroy));
    assert_eq!(parse_action("Create"), None);
    assert_eq!(parse_action(""), None);
    assert_eq!(parse_action("created"), None);
}

#[test]
fn decimal_values_parse_exactly() {
    assert_eq!(parse_u64("0"), Some(0));
    assert_eq!(parse_u64("3600"), Some(3600));
    assert_eq!(parse_u64("18446744073709551615"), Some(u64::MAX));
    assert_eq!(parse_u64("18446744073709551616"), None);
    assert_eq!(parse_u64(""), None);
    assert_eq!(parse_u64("12a"), None);
    assert_eq!(parse_u64("-1"), None);
    assert_eq!(parse_u64(" 7"), None);
}

#[test]
fn complete_environment_loads() {
    let d = BootstrapData::from_values(
        Some(String::from("res-1")),
        Some(String::from("testsys")),
        Some(String::from("create")),
        Some(String::from("3600")),
    )
    .expect("valid bootstrap data");
    assert_eq!(d.resource_name, "res-1");
    assert_eq!(d.namespace, "testsys");
    assert_eq!(d.action, Action::Create);
    assert_eq!(d.timeout_seconds, Some(3600));
}

#[test]
fn timeout_is_optional() {
    let d = BootstrapData::from_values(
        Some(String::from("res-1")),
        Some(String::from("testsys")),
        Some(String::from("destroy")),
        None,
    )
    .expect("valid bootstrap data");
    assert_eq!(d.action, Action::Destroy);
    assert_eq!(d.timeout_seconds, None);
}

#[test]
fn missing_values_are_fatal_in_order() {
    let r = BootstrapData::from_values(None, None, None, None);
    assert!(matches!(r, Err(BootstrapError::MissingResourceName)));

    let r = BootstrapData::from_values(Some(String::from("res-1")), None, None, None);
    assert!(matches!(r, Err(BootstrapError::MissingNamespace)));

    let r = BootstrapData::from_values(
        Some(String::from("res-1")),
        Some(String::from("testsys")),
        None,
        None,
    );
    assert!(matches!(r, Err(BootstrapError::MissingAction)));
}

#[test]
fn malformed_values_are_fatal() {
    let r = BootstrapData::from_values(
        Some(String::from("res-1")),
        Some(String::from("testsys")),
        Some(String::from("recreate")),
        None,
    );
    match r {
        Err(BootstrapError::InvalidAction { value }) => assert_eq!(value, "recreate"),
        _ => panic!("expected invalid action"),
    }

    let r = BootstrapData::from_values(
        Some(String::from("res-1")),
        Some(String::from("testsys")),
        Some(String::from("create")),
        Some(String::from("soon")),
    );
    match r {
        Err(BootstrapError::InvalidTimeout { value }) => assert_eq!(value, "soon"),
        _ => panic!("expected invalid timeout"),
    }
}
