use processbot::constants::{
    issue_revert_project_notification, project_confirmation, project_needs_backlog,
    will_close_for_no_project,
};
use processbot::decimal::{i64_to_string, u64_to_string};

#[test]
fn unsigned_numbers_in_decimal() {
    assert_eq!(u64_to_string(0), "0");
    assert_eq!(u64_to_string(7), "7");
    assert_eq!(u64_to_string(10), "10");
    assert_eq!(u64_to_string(1234567890), "1234567890");
    assert_eq!(u64_to_string(u64::MAX), "18446744073709551615");
}

#[test]
fn signed_numbers_in_decimal() {
    assert_eq!(i64_to_string(0), "0");
    assert_eq!(i64_to_string(-1), "-1");
    assert_eq!(i64_to_string(42), "42");
    assert_eq!(i64_to_string(-9000), "-9000");
    assert_eq!(i64_to_string(i64::MAX), "9223372036854775807");
    assert_eq!(i64_to_string(i64::MIN), "-9223372036854775808");
}

#[test]
fn decimal_agrees_with_std_formatting() {
    let mut n: u64 = 1;
    for _ in 0..60 {
        assert_eq!(u64_to_string(n), format!("{}", n));
        assert_eq!(i64_to_string(-(n as i64)), format!("{}", -(n as i64)));
        n = n * 2 + 1;
    }
}

#[test]
fn reminder_names_author_and_issue() {
    assert_eq!(
        will_close_for_no_project("alice", "https://example.org/i/1"),
        "@alice, https://example.org/i/1 will be closed if it is not attached to a project."
    );
}

#[test]
fn confirmation_names_issue_project_column_and_timeout() {
    assert_eq!(
        project_confirmation("https://example.org/i/1", "https://example.org/p/2", 77, -5, 3600),
        "https://example.org/i/1 has been attached to column -5 of the project \
         https://example.org/p/2 by a user who needs confirmation. To keep it there, confirm \
         issue 77 for column -5 within 3600 seconds."
    );
}

#[test]
fn backlog_notice_names_owner_and_project() {
    assert_eq!(
        project_needs_backlog("bob", "https://example.org/p/2"),
        "bob, https://example.org/p/2 needs a backlog column."
    );
}

#[test]
fn revert_notice_names_issue() {
    assert_eq!(
        issue_revert_project_notification("https://example.org/i/1"),
        "The project change you made to https://example.org/i/1 has been denied or gone \
         unconfirmed for too long, and so has been reverted. Changes require confirmation from \
         the project owner or a whitelisted developer."
    );
}
