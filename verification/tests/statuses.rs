use fakeyou_client::text::{decimal, same_text};
use fakeyou_client::JobStatus;

const ALL: [JobStatus; 6] = [
    JobStatus::AttemptFailed,
    JobStatus::CompleteFailure,
    JobStatus::CompleteSuccess,
    JobStatus::Dead,
    JobStatus::Pending,
    JobStatus::Started,
];

#[test]
fn only_complete_success_is_success() {
    for status in ALL {
        assert_eq!(status.is_success(), status == JobStatus::CompleteSuccess);
    }
}

#[test]
fn complete_failure_and_dead_are_failures() {
    for status in ALL {
        assert_eq!(
            status.is_failure(),
            status == JobStatus::CompleteFailure || status == JobStatus::Dead
        );
    }
}

#[test]
fn attempt_failed_is_not_terminal() {
    assert!(!JobStatus::AttemptFailed.is_terminal());
    assert!(!JobStatus::AttemptFailed.is_failure());
    assert!(!JobStatus::AttemptFailed.is_success());
}

#[test]
fn terminal_statuses() {
    assert!(JobStatus::CompleteSuccess.is_terminal());
    assert!(JobStatus::CompleteFailure.is_terminal());
    assert!(JobStatus::Dead.is_terminal());
    assert!(!JobStatus::Pending.is_terminal());
    assert!(!JobStatus::Started.is_terminal());
}

#[test]
fn names() {
    assert_eq!(JobStatus::AttemptFailed.name(), "attempt_failed");
    assert_eq!(JobStatus::CompleteFailure.name(), "complete_failure");
    assert_eq!(JobStatus::CompleteSuccess.name(), "complete_success");
    assert_eq!(JobStatus::Dead.name(), "dead");
    assert_eq!(JobStatus::Pending.name(), "pending");
    assert_eq!(JobStatus::Started.name(), "started");
}

#[test]
fn every_name_is_read_back() {
    for status in ALL {
        assert_eq!(JobStatus::from_name(status.name()), Some(status));
    }
}

#[test]
fn unknown_names_are_no_status() {
    for name in ["", "Pending", "PENDING", "pending ", "complete", "complete_succes", "deadx"] {
        assert_eq!(JobStatus::from_name(name), None);
    }
}

#[test]
fn same_text_compares_characters() {
    assert!(same_text("", ""));
    assert!(same_text("pending", "pending"));
    assert!(same_text("h\u{e9}llo \u{1f600}", "h\u{e9}llo \u{1f600}"));
    assert!(!same_text("pending", "pendinG"));
    assert!(!same_text("pending", "pending "));
    assert!(!same_text("", "x"));
    assert!(!same_text("\u{e9}", "e"));
}

#[test]
fn decimal_writes_every_number_as_std_does() {
    for number in [0u16, 1, 9, 10, 11, 99, 100, 101, 429, 999, 1000, 9999, 10000, 65535] {
        assert_eq!(decimal(number), number.to_string());
    }
}
