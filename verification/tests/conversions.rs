use task_service::task_status::TaskStatus;
use task_service::text::{decimal_text, is_blank};
use task_service::user_role::{is_admin, UserRole};

#[test]
fn task_status_texts() {
    assert_eq!(String::from(TaskStatus::Pending), "pending");
    assert_eq!(String::from(TaskStatus::InProcess), "in_process");
    assert_eq!(String::from(TaskStatus::Done), "done");
    assert_eq!(String::from(TaskStatus::Cancel), "cancel");
}

#[test]
fn task_status_round_trip() {
    for status in [TaskStatus::Pending, TaskStatus::InProcess, TaskStatus::Done, TaskStatus::Cancel] {
        assert_eq!(TaskStatus::try_from(String::from(status)), Ok(status));
    }
}

#[test]
fn task_status_unknown_text() {
    assert_eq!(
        TaskStatus::try_from("finished".to_string()),
        Err("Unknown task status: finished".to_string())
    );
    assert_eq!(
        TaskStatus::try_from("Pending".to_string()),
        Err("Unknown task status: Pending".to_string())
    );
    assert_eq!(TaskStatus::try_from(String::new()), Err("Unknown task status: ".to_string()));
}

#[test]
fn user_role_texts_and_round_trip() {
    assert_eq!(String::from(UserRole::Admin), "admin");
    assert_eq!(String::from(UserRole::User), "user");
    for role in [UserRole::Admin, UserRole::User] {
        assert_eq!(UserRole::try_from(String::from(role)), Ok(role));
    }
}

#[test]
fn user_role_unknown_text() {
    assert_eq!(
        UserRole::try_from("root".to_string()),
        Err("Unknown user role: root".to_string())
    );
    assert!(is_admin(UserRole::Admin));
    assert!(!is_admin(UserRole::User));
}

#[test]
fn blank_texts() {
    assert!(is_blank(""));
    assert!(is_blank("   "));
    assert!(is_blank(" \t\n\r\u{0b}\u{0c}"));
    assert!(is_blank("\u{a0}\u{2003}\u{3000}\u{85}\u{2028}"));
    assert!(!is_blank(" a "));
    assert!(!is_blank("\u{200b}"));
    assert!(!is_blank("x"));
}

#[test]
fn blank_agrees_with_trim() {
    let samples = ["", " ", "a", " \u{1680} ", "\u{feff}", "\u{180e}", "\u{205f}\u{202f}", " b\t"];
    for s in samples {
        assert_eq!(is_blank(s), s.trim().is_empty(), "{:?}", s);
    }
}

#[test]
fn decimal_texts() {
    assert_eq!(decimal_text(0), "0");
    assert_eq!(decimal_text(7), "7");
    assert_eq!(decimal_text(42), "42");
    assert_eq!(decimal_text(-5), "-5");
    assert_eq!(decimal_text(1000), "1000");
    assert_eq!(decimal_text(i32::MAX), "2147483647");
    assert_eq!(decimal_text(i32::MIN), "-2147483648");
}
