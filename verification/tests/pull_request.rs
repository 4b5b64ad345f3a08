use processbot::github::Repository;
use processbot::github_bot::{GithubBot, Method, Organization, Request};

fn session() -> GithubBot {
    GithubBot { organization: Organization { login: "paritytech".to_owned() } }
}

fn pair(key: &str, value: &str) -> (String, String) {
    (key.to_owned(), value.to_owned())
}

#[test]
fn test_pull_requests() {
    let bot = session();
    let repo = Repository {
        name: "parity-processbot".to_owned(),
        pulls_url: "https://api.github.com/repos/paritytech/parity-processbot/pulls{/number}"
            .to_owned(),
    };
    assert_eq!(
        bot.create_pull_request(
            "parity-processbot",
            "testing pr",
            "this is a test",
            "testing_branch",
            "other_testing_branch",
        ),
        Request {
            method: Method::Post,
            url: "https://api.github.com/repos/paritytech/parity-processbot/pulls".to_owned(),
            params: vec![
                pair("title", "testing pr"),
                pair("body", "this is a test"),
                pair("head", "testing_branch"),
                pair("base", "other_testing_branch"),
            ],
        }
    );
    assert_eq!(
        bot.pull_requests(&repo),
        Request {
            method: Method::Get,
            url: "https://api.github.com/repos/paritytech/parity-processbot/pulls".to_owned(),
            params: vec![],
        }
    );
    assert_eq!(
        bot.close_pull_request("parity-processbot", 17),
        Request {
            method: Method::Patch,
            url: "https://api.github.com/repos/paritytech/parity-processbot/pulls/17".to_owned(),
            params: vec![pair("state", "closed")],
        }
    );
}

#[test]
fn merge_request_addresses_the_merge_of_one_pull_request() {
    assert_eq!(
        session().merge_pull_request("node", 4021),
        Request {
            method: Method::Put,
            url: "https://api.github.com/repos/paritytech/node/pulls/4021/merge".to_owned(),
            params: vec![],
        }
    );
}

#[test]
fn every_placeholder_is_removed_from_the_list_address() {
    let repo = Repository {
        name: "node".to_owned(),
        pulls_url: "{/number}https://x/{/number{/number}}/pulls{/number}{/number}".to_owned(),
    };
    assert_eq!(session().pull_requests(&repo).url, "https://x/{/number}/pulls");
    let plain = Repository { name: "node".to_owned(), pulls_url: "https://x/pulls".to_owned() };
    assert_eq!(session().pull_requests(&plain).url, "https://x/pulls");
    let short = Repository { name: "node".to_owned(), pulls_url: "{/num".to_owned() };
    assert_eq!(session().pull_requests(&short).url, "{/num");
}

#[test]
fn list_request_reads_the_given_address() {
    assert_eq!(
        GithubBot::list("https://x/pulls".to_owned()),
        Request { method: Method::Get, url: "https://x/pulls".to_owned(), params: vec![] }
    );
}
