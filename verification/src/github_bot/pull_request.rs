//! Requests about pull requests.

use crate::decimal::{decimal_int, i64_to_string};
use crate::github::Repository;
use crate::github_bot::{GithubBot, Method, Request, RequestView, BASE_URL};
use vstd::prelude::*;
use vstd::string::StringExecFns;

verus! {

/// What `str::replace` of std returns for a text, a pattern and a
/// replacement.
pub uninterp spec fn str_replace(text: Seq<char>, from: Seq<char>, to: Seq<char>) -> Seq<char>;

/// `str::replace` of std: a new string in which the matches of `from` in
/// `text` have given way to `to`. The result depends on the three texts
/// alone.
#[verifier::external_body]
fn replace(text: &str, from: &str, to: &str) -> (res: String)
    ensures
        res@ == str_replace(text@, from@, to@),
{
    text.replace(from, to)
}

/// The address of the pull requests of a repository.
pub open spec fn pulls_url(owner: Seq<char>, repo: Seq<char>) -> Seq<char> {
    BASE_URL@ + "/repos/"@ + owner + "/"@ + repo + "/pulls"@
}

/// The address of one pull request.
pub open spec fn pull_url(owner: Seq<char>, repo: Seq<char>, pull_number: i64) -> Seq<char> {
    pulls_url(owner, repo) + "/"@ + decimal_int(pull_number as int)
}

fn one_param(key: &str, value: &str) -> (p: (String, String))
    ensures
        p.0@ == key@,
        p.1@ == value@,
{
    (key.to_owned(), value.to_owned())
}

impl GithubBot {
    fn pulls_url(&self, repo_name: &str) -> (url: String)
        ensures
            url@ == pulls_url(self.organization.login@, repo_name@),
    {
        let mut url = String::from_str(BASE_URL);
        url.append("/repos/");
        url.append(self.organization.login.as_str());
        url.append("/");
        url.append(repo_name);
        url.append("/pulls");
        url
    }

    fn pull_url(&self, repo_name: &str, pull_number: i64) -> (url: String)
        ensures
            url@ == pull_url(self.organization.login@, repo_name@, pull_number),
    {
        let mut url = self.pulls_url(repo_name);
        url.append("/");
        url.append(i64_to_string(pull_number).as_str());
        url
    }

    /// The request for every item listed at `url`.
    pub fn list(url: String) -> (request: Request)
        ensures
            request@ == (RequestView { method: Method::Get, url: url@, params: Seq::empty() }),
    {
        let request = Request { method: Method::Get, url, params: Vec::new() };
        assert(request@.params =~= Seq::empty());
        request
    }

    /// Asks for all of the pull requests in a single repository: the
    /// address is the repository's address of pull requests with its
    /// placeholder for a number replaced by nothing.
    pub fn pull_requests(&self, repo: &Repository) -> (request: Request)
        ensures
            request@ == (RequestView {
                method: Method::Get,
                url: str_replace(repo.pulls_url@, "{/number}"@, ""@),
                params: Seq::empty(),
            }),
    {
        Self::list(replace(repo.pulls_url.as_str(), "{/number}", ""))
    }

    /// Asks for a new pull request to merge `head` into `base`.
    pub fn create_pull_request(
        &self,
        repo_name: &str,
        title: &str,
        body: &str,
        head: &str,
        base: &str,
    ) -> (request: Request)
        ensures
            request@ == (RequestView {
                method: Method::Post,
                url: pulls_url(self.organization.login@, repo_name@),
                params: seq![
                    ("title"@, title@),
                    ("body"@, body@),
                    ("head"@, head@),
                    ("base"@, base@),
                ],
            }),
    {
        let mut params: Vec<(String, String)> = Vec::new();
        params.push(one_param("title", title));
        params.push(one_param("body", body));
        params.push(one_param("head", head));
        params.push(one_param("base", base));
        let request = Request { method: Method::Post, url: self.pulls_url(repo_name), params };
        assert(request@.params =~= seq![
            ("title"@, title@),
            ("body"@, body@),
            ("head"@, head@),
            ("base"@, base@),
        ]);
        request
    }

    /// Asks to merge a pull request.
    pub fn merge_pull_request(&self, repo_name: &str, pull_number: i64) -> (request: Request)
        ensures
            request@ == (RequestView {
                method: Method::Put,
                url: pull_url(self.organization.login@, repo_name@, pull_number) + "/merge"@,
                params: Seq::empty(),
            }),
    {
        let mut url = self.pull_url(repo_name, pull_number);
        url.append("/merge");
        let request = Request { method: Method::Put, url, params: Vec::new() };
        assert(request@.params =~= Seq::empty());
        request
    }

    /// Asks to close a pull request.
    pub fn close_pull_request(&self, repo_name: &str, pull_number: i64) -> (request: Request)
        ensures
            request@ == (RequestView {
                method: Method::Patch,
                url: pull_url(self.organization.login@, repo_name@, pull_number),
                params: seq![("state"@, "closed"@)],
            }),
    {
        let mut params: Vec<(String, String)> = Vec::new();
        params.push(one_param("state", "closed"));
        let request = Request {
            method: Method::Patch,
            url: self.pull_url(repo_name, pull_number),
            params,
        };
        assert(request@.params =~= seq![("state"@, "closed"@)]);
        request
    }
}

} // verus!
