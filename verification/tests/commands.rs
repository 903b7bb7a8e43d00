use appshell::autolaunch::{autolaunch_action, AutolaunchAction};
use appshell::greeting::greet;

#[test]
fn greet_wraps_name_in_template() {
    assert_eq!(greet("World"), "Hello, World! You've been greeted from Rust!");
}

#[test]
fn greet_keeps_name_verbatim() {
    let g = greet("Ada Lovelace");
    assert_eq!(g, "Hello, Ada Lovelace! You've been greeted from Rust!");
    assert!(g.contains("Ada Lovelace"));
}

#[test]
fn greet_empty_name_keeps_template() {
    assert_eq!(greet(""), "Hello, ! You've been greeted from Rust!");
}

#[test]
fn greet_name_with_template_characters() {
    assert_eq!(
        greet("Hello, X!"),
        "Hello, Hello, X!! You've been greeted from Rust!"
    );
}

#[test]
fn toggle_on_requests_enable() {
    assert_eq!(autolaunch_action(true), AutolaunchAction::Enable);
}

#[test]
fn toggle_off_requests_disable() {
    assert_eq!(autolaunch_action(false), AutolaunchAction::Disable);
}
