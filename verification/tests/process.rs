use processbot::config::BotConfig;
use processbot::process::ProcessInfo;

fn info(delegate: Option<&str>) -> ProcessInfo {
    ProcessInfo {
        project_name: "runtime".to_owned(),
        owner: "olivia".to_owned(),
        delegate: delegate.map(|d| d.to_owned()),
        whitelist: vec!["wanda".to_owned(), "walter".to_owned()],
        matrix_room_id: "!runtime:example.org".to_owned(),
        backlog: None,
    }
}

#[test]
fn owner_delegate_and_whitelist_are_special() {
    let p = info(Some("dave"));
    assert!(p.is_special(&"olivia".to_owned()));
    assert!(p.is_special(&"dave".to_owned()));
    assert!(p.is_special(&"wanda".to_owned()));
    assert!(p.is_special(&"walter".to_owned()));
}

#[test]
fn others_are_not_special() {
    let p = info(Some("dave"));
    assert!(!p.is_special(&"mallory".to_owned()));
    assert!(!p.is_special(&"".to_owned()));
    assert!(!p.is_special(&"Olivia".to_owned()));
    assert!(!info(None).is_special(&"dave".to_owned()));
}

#[test]
fn whitelist_lookup_finds_every_entry() {
    let p = info(None);
    assert!(p.is_whitelisted(&"wanda".to_owned()));
    assert!(p.is_whitelisted(&"walter".to_owned()));
    assert!(!p.is_whitelisted(&"olivia".to_owned()));
}

#[test]
fn delegate_is_addressed_before_owner() {
    assert_eq!(info(Some("dave")).owner_or_delegate(), "dave");
    assert_eq!(info(None).owner_or_delegate(), "olivia");
}

#[test]
fn config_needs_positive_intervals() {
    let good = BotConfig {
        project_confirmation_timeout: 1,
        no_project_author_is_core_ping: 1,
        no_project_author_is_core_close_pr: 0,
        no_project_author_not_core_close_pr: 1,
        project_backlog_column_name: "Backlog".to_owned(),
        core_sorting_repo_name: "triage".to_owned(),
    };
    assert!(good.is_well_formed());
    let mut bad = good.clone();
    bad.project_confirmation_timeout = 0;
    assert!(!bad.is_well_formed());
    let mut bad = good.clone();
    bad.no_project_author_is_core_ping = 0;
    assert!(!bad.is_well_formed());
    let mut bad = good.clone();
    bad.no_project_author_not_core_close_pr = 0;
    assert!(!bad.is_well_formed());
}
