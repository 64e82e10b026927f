use menu_bridge::dispatch::{
    dispatch_menu_event, is_valid_menu_id, sign_out_command, str_eq, MenuDispatch,
};
use menu_bridge::signal::Signal;

#[test]
fn unlisted_ids_are_rejected() {
    assert!(!is_valid_menu_id(""));
    assert!(!is_valid_menu_id("quit"));
    assert!(!is_valid_menu_id("about"));
    assert!(!is_valid_menu_id("Preferences"));
    assert!(!is_valid_menu_id("sign-out"));
    assert!(!is_valid_menu_id("preferences "));
}

#[test]
fn allow_listed_ids_are_accepted() {
    assert!(is_valid_menu_id("preferences"));
    assert!(is_valid_menu_id("sign_out"));
}

#[test]
fn unlisted_id_dispatch_emits_nothing() {
    let outcomes = [
        dispatch_menu_event("quit", Some("main")),
        dispatch_menu_event("", Some("main")),
        dispatch_menu_event("navigate-to-preferences", Some("main")),
        dispatch_menu_event("quit", None),
        dispatch_menu_event("quit", Some("secondary")),
    ];
    for outcome in outcomes {
        assert_eq!(outcome, MenuDispatch::DiscardInvalidId);
    }
}

#[test]
fn preferences_on_main_emits_navigate() {
    let outcome = dispatch_menu_event("preferences", Some("main"));
    match outcome {
        MenuDispatch::Emit(signal) => {
            assert_eq!(signal.name(), "navigate-to-preferences");
        }
        other => panic!("expected an emission, got {:?}", other),
    }
}

#[test]
fn sign_out_on_main_emits_sign_out_user() {
    let outcome = dispatch_menu_event("sign_out", Some("main"));
    match outcome {
        MenuDispatch::Emit(signal) => {
            assert_eq!(signal.name(), "sign-out-user");
        }
        other => panic!("expected an emission, got {:?}", other),
    }
}

#[test]
fn missing_window_emits_nothing() {
    assert_eq!(
        dispatch_menu_event("preferences", None),
        MenuDispatch::DiscardNoWindow
    );
    assert_eq!(
        dispatch_menu_event("sign_out", None),
        MenuDispatch::DiscardNoWindow
    );
}

#[test]
fn wrong_label_emits_nothing() {
    assert_eq!(
        dispatch_menu_event("preferences", Some("secondary")),
        MenuDispatch::DiscardWrongLabel
    );
    assert_eq!(
        dispatch_menu_event("sign_out", Some("settings")),
        MenuDispatch::DiscardWrongLabel
    );
}

#[test]
fn sign_out_command_emits_sign_out() {
    let signal = sign_out_command();
    assert_eq!(signal, Signal::SignOut);
    assert_eq!(signal.name(), "sign-out");
}

#[test]
fn signal_names_are_distinct() {
    assert_eq!(Signal::NavigateToPreferences.name(), "navigate-to-preferences");
    assert_eq!(Signal::SignOutUser.name(), "sign-out-user");
    assert_eq!(Signal::SignOut.name(), "sign-out");
    assert_ne!(Signal::SignOutUser.name(), Signal::SignOut.name());
}

#[test]
fn str_eq_matches_string_equality() {
    assert!(str_eq("", ""));
    assert!(str_eq("main", "main"));
    assert!(!str_eq("main", "Main"));
    assert!(!str_eq("main", "mai"));
    assert!(!str_eq("mai", "main"));
    assert!(str_eq("naïve \u{1F600}", "naïve \u{1F600}"));
    assert!(!str_eq("naïve", "naive"));
}
