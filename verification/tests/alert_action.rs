use oxfeed_front::action::{Action, Failure};
use oxfeed_front::alert::{Alert, Level};

#[test]
fn info_alert_is_a_success() {
    let alert = Alert::info("User created");
    assert_eq!(alert.level, Level::Info);
    assert_eq!(alert.message, "User created");
    assert_eq!(alert.severity(), "success");
}

#[test]
fn error_alert_is_a_danger() {
    let alert = Alert::error("Invalid login");
    assert_eq!(alert.level, Level::Error);
    assert_eq!(alert.message, "Invalid login");
    assert_eq!(alert.severity(), "danger");
}

#[test]
fn every_level_has_its_severity() {
    let cases = [
        (Level::Trace, "light"),
        (Level::Debug, "info"),
        (Level::Info, "success"),
        (Level::Warn, "warning"),
        (Level::Error, "danger"),
    ];
    for (level, severity) in cases {
        let alert = Alert { level, message: String::new() };
        assert_eq!(alert.severity(), severity);
    }
}

#[test]
fn alert_becomes_an_add_alert_action() {
    let action: Action = Alert::info("Logged out").into();
    match action {
        Action::AddAlert(alert) => {
            assert_eq!(alert.level, Level::Info);
            assert_eq!(alert.message, "Logged out");
        }
        other => panic!("unexpected action {other:?}"),
    }
}

#[test]
fn failed_authentication_requires_a_login() {
    assert!(matches!(Action::from_failure(Failure::Auth), Action::AuthRequire));
}

#[test]
fn other_failure_becomes_an_error_alert() {
    match Action::from_failure(Failure::Other("Server error".to_string())) {
        Action::AddAlert(alert) => {
            assert_eq!(alert.level, Level::Error);
            assert_eq!(alert.message, "Server error");
        }
        other => panic!("unexpected action {other:?}"),
    }
}
