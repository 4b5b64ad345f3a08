use processbot::local_state::{IssueProject, IssueProjectState, LocalState};

fn link(state: IssueProjectState, actor: &str, column: i64) -> IssueProject {
    IssueProject { state, actor_login: actor.to_owned(), project_column_id: column }
}

#[test]
fn new_record_is_empty() {
    let s = LocalState::new(vec![1, 2, 3]);
    assert_eq!(s.key, vec![1, 2, 3]);
    assert_eq!(s.issue_project(), None);
    assert_eq!(s.last_confirmed_issue_project(), None);
    assert_eq!(s.issue_confirm_project_ping(), None);
    assert_eq!(s.issue_no_project_ping(), None);
    assert_eq!(s.issue_no_project_npings(), 0);
    assert!(s.is_usable_at(0));
}

#[test]
fn updates_change_one_field_each() {
    let mut s = LocalState::new(vec![9]);
    s.update_issue_confirm_project_ping(Some(10));
    s.update_issue_project(Some(link(IssueProjectState::Unconfirmed, "alice", 4)));
    s.update_last_confirmed_issue_project(Some(link(IssueProjectState::Confirmed, "bob", 3)));
    s.update_issue_no_project_ping(Some(20));
    s.update_issue_no_project_npings(2);
    assert_eq!(s.key, vec![9]);
    assert_eq!(s.issue_project(), Some(&link(IssueProjectState::Unconfirmed, "alice", 4)));
    assert_eq!(
        s.last_confirmed_issue_project(),
        Some(&link(IssueProjectState::Confirmed, "bob", 3))
    );
    assert_eq!(s.issue_confirm_project_ping(), Some(10));
    assert_eq!(s.issue_no_project_ping(), Some(20));
    assert_eq!(s.issue_no_project_npings(), 2);
    s.update_issue_project(None);
    assert_eq!(s.issue_project(), None);
    assert_eq!(s.issue_confirm_project_ping(), Some(10));
}

#[test]
fn delete_leaves_a_new_record_under_the_same_key() {
    let mut s = LocalState::new(vec![9]);
    s.update_issue_confirm_project_ping(Some(10));
    s.update_issue_project(Some(link(IssueProjectState::Denied, "alice", 4)));
    s.update_issue_no_project_ping(Some(20));
    s.update_issue_no_project_npings(2);
    s.delete();
    assert_eq!(s, LocalState::new(vec![9]));
}

#[test]
fn pending_link_without_window_is_not_usable() {
    let mut s = LocalState::new(vec![]);
    s.update_issue_project(Some(link(IssueProjectState::Unconfirmed, "alice", 4)));
    assert!(!s.is_usable_at(100));
    s.update_issue_project(Some(link(IssueProjectState::Denied, "alice", 4)));
    assert!(!s.is_usable_at(100));
    s.update_issue_project(Some(link(IssueProjectState::Confirmed, "alice", 4)));
    assert!(s.is_usable_at(100));
}

#[test]
fn window_in_the_future_is_not_usable() {
    let mut s = LocalState::new(vec![]);
    s.update_issue_confirm_project_ping(Some(101));
    assert!(!s.is_usable_at(100));
    assert!(s.is_usable_at(101));
}

#[test]
fn rollback_target_must_be_confirmed() {
    let mut s = LocalState::new(vec![]);
    s.update_last_confirmed_issue_project(Some(link(IssueProjectState::Denied, "alice", 4)));
    assert!(!s.is_usable_at(100));
    s.update_last_confirmed_issue_project(Some(link(IssueProjectState::Confirmed, "alice", 4)));
    assert!(s.is_usable_at(100));
}

#[test]
fn link_clone_is_equal() {
    let l = link(IssueProjectState::Denied, "alice", -4);
    assert_eq!(l.clone(), l);
}

#[test]
fn key_is_the_id_in_little_endian() {
    assert_eq!(LocalState::key_of(1), vec![1, 0, 0, 0, 0, 0, 0, 0]);
    assert_eq!(LocalState::key_of(0x0102030405060708), vec![8, 7, 6, 5, 4, 3, 2, 1]);
    assert_eq!(LocalState::key_of(-2), vec![0xfe, 0xff, 0xff, 0xff, 0xff, 0xff, 0xff, 0xff]);
    assert_eq!(LocalState::key_of(i64::MIN), i64::MIN.to_le_bytes().to_vec());
    assert_eq!(LocalState::key_of(7001), 7001i64.to_le_bytes().to_vec());
}
