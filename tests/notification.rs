use supply_domain::error::CustomError;
use supply_domain::notification::{Notification, ValidationHandler};

fn sample() -> Notification {
    let mut a = Notification::new();
    a.append(&CustomError::Error("first".to_string()));
    a.append(&CustomError::ApiError("second".to_string()));
    a.append(&CustomError::Error("first".to_string()));
    a
}

#[test]
fn merging_into_empty_handler_reproduces_errors() {
    let a = sample();
    let mut b = Notification::new();
    b.append_validation_handler(&a);
    assert_eq!(b.format_errors(), a.format_errors());
    assert_eq!(b.get_errors().len(), 3);
    assert_eq!(b.format_errors(), vec!["first", "ApiError: second", "first"]);
}

#[test]
fn merging_appends_after_existing_errors() {
    let a = sample();
    let mut b = Notification::with_one_error(CustomError::RepositoryError("zero".to_string()));
    b.append_validation_handler(&a);
    assert_eq!(
        b.format_errors(),
        vec!["RepositoryError: zero", "first", "ApiError: second", "first"]
    );
}

#[test]
fn empty_notification_has_no_errors() {
    let n = Notification::new();
    assert!(!n.has_errors());
    assert!(n.get_first_error().is_none());
    assert!(n.format_errors().is_empty());
}

#[test]
fn notification_with_errors_keeps_order() {
    let n = Notification::with_errors(vec![
        CustomError::Error("b".to_string()),
        CustomError::Error("a".to_string()),
    ]);
    assert!(n.has_errors());
    assert_eq!(n.get_first_error().unwrap().to_string(), "b");
    assert_eq!(n.format_errors(), vec!["b", "a"]);
}

#[test]
fn default_notification_is_empty() {
    let n = Notification::default();
    assert!(!n.has_errors());
    assert_eq!(n.get_errors().len(), 0);
}
