use arti_bridge::error::{
    arti_last_error_message, settle, take_last_error, update_last_error, ErrorRecord, ErrorSlot,
    Severity,
};

fn record(message: &str, causes: &[&str]) -> ErrorRecord {
    ErrorRecord {
        message: message.to_string(),
        causes: causes.iter().map(|c| c.to_string()).collect(),
    }
}

#[test]
fn new_slot_is_empty() {
    let mut slot = ErrorSlot::new();
    assert!(!slot.is_pending());
    assert!(take_last_error(&mut slot).is_none());
}

#[test]
fn empty_slot_reads_as_empty_string() {
    let mut slot = ErrorSlot::new();
    assert_eq!(arti_last_error_message(&mut slot), "");
    assert!(!slot.is_pending());
}

#[test]
fn recorded_error_is_taken_once() {
    let mut slot = ErrorSlot::new();
    update_last_error(&mut slot, record("bootstrap failed", &["circuit timeout", "no route"]));
    assert!(slot.is_pending());
    let taken = take_last_error(&mut slot).expect("a failure was recorded");
    assert_eq!(taken.message, "bootstrap failed");
    assert_eq!(taken.causes, vec!["circuit timeout".to_string(), "no route".to_string()]);
    assert!(!slot.is_pending());
    assert!(take_last_error(&mut slot).is_none());
}

#[test]
fn last_error_message_is_empty_the_second_time() {
    let mut slot = ErrorSlot::new();
    update_last_error(&mut slot, record("invalid state directory", &[]));
    assert_eq!(arti_last_error_message(&mut slot), "invalid state directory");
    assert_eq!(arti_last_error_message(&mut slot), "");
    assert_eq!(arti_last_error_message(&mut slot), "");
}

#[test]
fn message_is_the_primary_one_not_a_cause() {
    let mut slot = ErrorSlot::new();
    update_last_error(&mut slot, record("outer", &["inner"]));
    assert_eq!(arti_last_error_message(&mut slot), "outer");
}

#[test]
fn later_failure_overwrites_unread_one() {
    let mut slot = ErrorSlot::new();
    update_last_error(&mut slot, record("first", &["lost cause"]));
    update_last_error(&mut slot, record("second", &[]));
    let taken = take_last_error(&mut slot).expect("a failure was recorded");
    assert_eq!(taken.message, "second");
    assert!(taken.causes.is_empty());
    assert!(take_last_error(&mut slot).is_none());
}

#[test]
fn recording_logs_message_then_causes_in_chain_order() {
    let mut slot = ErrorSlot::new();
    let log = update_last_error(&mut slot, record("boom", &["inner", "root"]));
    assert_eq!(log.len(), 3);
    assert_eq!(log[0].severity, Severity::Error);
    assert_eq!(log[0].text, "Setting LAST_ERROR: boom");
    assert_eq!(log[1].severity, Severity::Warn);
    assert_eq!(log[1].text, "Caused by: inner");
    assert_eq!(log[2].severity, Severity::Warn);
    assert_eq!(log[2].text, "Caused by: root");
}

#[test]
fn recording_without_causes_logs_one_line() {
    let mut slot = ErrorSlot::new();
    let log = update_last_error(&mut slot, record("", &[]));
    assert_eq!(log.len(), 1);
    assert_eq!(log[0].severity, Severity::Error);
    assert_eq!(log[0].text, "Setting LAST_ERROR: ");
    assert!(slot.is_pending());
    assert_eq!(arti_last_error_message(&mut slot), "");
}

#[test]
fn settle_success_leaves_slot_alone() {
    let mut slot = ErrorSlot::new();
    update_last_error(&mut slot, record("earlier", &[]));
    let (ok, log) = settle(&mut slot, Ok(()));
    assert!(ok);
    assert!(log.is_empty());
    assert_eq!(arti_last_error_message(&mut slot), "earlier");
}

#[test]
fn settle_failure_records_and_reports_false() {
    let mut slot = ErrorSlot::new();
    let (ok, log) = settle(&mut slot, Err(record("bootstrap failed", &["timeout"])));
    assert!(!ok);
    assert_eq!(log.len(), 2);
    assert_eq!(log[0].text, "Setting LAST_ERROR: bootstrap failed");
    assert_eq!(log[1].text, "Caused by: timeout");
    assert_eq!(arti_last_error_message(&mut slot), "bootstrap failed");
    assert_eq!(arti_last_error_message(&mut slot), "");
}
