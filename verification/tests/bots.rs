use processbot::bots::{Bot, ChatIdentity};
use processbot::config::BotConfig;
use processbot::github::User;
use processbot::matrix_bot::{LoginResponse, MatrixBot};

fn bot() -> Bot {
    Bot {
        config: BotConfig {
            project_confirmation_timeout: 3600,
            no_project_author_is_core_ping: 100,
            no_project_author_is_core_close_pr: 300,
            no_project_author_not_core_close_pr: 200,
            project_backlog_column_name: "Backlog".to_owned(),
            core_sorting_repo_name: "triage".to_owned(),
        },
        core_devs: vec![
            User { id: 1, login: "carol".to_owned() },
            User { id: 2, login: "chris".to_owned() },
        ],
        github_to_matrix: vec![
            ChatIdentity {
                github_login: "alice".to_owned(),
                matrix_id: "@alice:example.org".to_owned(),
            },
            ChatIdentity {
                github_login: "bob".to_owned(),
                matrix_id: "@bob:example.org".to_owned(),
            },
            ChatIdentity {
                github_login: "alice".to_owned(),
                matrix_id: "@other:example.org".to_owned(),
            },
        ],
        matrix_bot: MatrixBot::new(
            "https://chat.example.org",
            LoginResponse { access_token: "token-1".to_owned() },
            "!default:example.org",
        ),
    }
}

#[test]
fn core_devs_are_told_by_id() {
    let b = bot();
    assert!(b.is_core_dev(&User { id: 1, login: "carol".to_owned() }));
    assert!(b.is_core_dev(&User { id: 2, login: "renamed".to_owned() }));
    assert!(!b.is_core_dev(&User { id: 3, login: "carol".to_owned() }));
}

#[test]
fn first_chat_identity_of_a_login_counts() {
    let b = bot();
    assert_eq!(b.matrix_id_of(&"alice".to_owned()), Some(&"@alice:example.org".to_owned()));
    assert_eq!(b.matrix_id_of(&"bob".to_owned()), Some(&"@bob:example.org".to_owned()));
    assert_eq!(b.matrix_id_of(&"mallory".to_owned()), None);
}

#[test]
fn user_clone_is_equal() {
    let u = User { id: -7, login: "carol".to_owned() };
    assert_eq!(u.clone(), u);
}
