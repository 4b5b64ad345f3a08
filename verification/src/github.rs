//! Plain records of what the code-hosting platform reports about users,
//! repositories, issues and project boards.

use vstd::prelude::*;

verus! {

/// The characters of an optional string.
pub open spec fn opt_chars(s: Option<String>) -> Option<Seq<char>> {
    match s {
        Some(s) => Some(s@),
        None => None,
    }
}

/// A user account.
#[derive(Debug, PartialEq, Eq)]
pub struct User {
    pub id: i64,
    pub login: String,
}

/// Mathematical model of a [`User`].
pub struct UserView {
    pub id: i64,
    pub login: Seq<char>,
}

impl View for User {
    type V = UserView;

    open spec fn view(&self) -> UserView {
        UserView { id: self.id, login: self.login@ }
    }
}

impl Clone for User {
    fn clone(&self) -> (res: Self)
        ensures
            res@ == self@,
    {
        User { id: self.id, login: self.login.clone() }
    }
}

/// A source-code repository.
#[derive(Clone, Debug, PartialEq, Eq)]
pub struct Repository {
    pub name: String,
    /// The address of the repository's pull requests, with a placeholder
    /// for the number of one.
    pub pulls_url: String,
}

/// Mathematical model of a [`Repository`].
pub struct RepositoryView {
    pub name: Seq<char>,
    pub pulls_url: Seq<char>,
}

impl View for Repository {
    type V = RepositoryView;

    open spec fn view(&self) -> RepositoryView {
        RepositoryView { name: self.name@, pulls_url: self.pulls_url@ }
    }
}

/// An issue as the platform reports it. Fields that the platform may leave
/// out are optional.
#[derive(Clone, Debug, PartialEq, Eq)]
pub struct Issue {
    pub id: Option<i64>,
    pub number: i64,
    pub html_url: Option<String>,
    pub title: Option<String>,
    pub body: Option<String>,
    pub user: User,
    pub assignee: Option<User>,
    pub repository: Option<Repository>,
}

/// Mathematical model of an [`Issue`].
pub struct IssueView {
    pub id: Option<i64>,
    pub number: i64,
    pub html_url: Option<Seq<char>>,
    pub title: Option<Seq<char>>,
    pub body: Option<Seq<char>>,
    pub user: UserView,
    pub assignee: Option<UserView>,
    pub repository: Option<RepositoryView>,
}

impl View for Issue {
    type V = IssueView;

    open spec fn view(&self) -> IssueView {
        IssueView {
            id: self.id,
            number: self.number,
            html_url: opt_chars(self.html_url),
            title: opt_chars(self.title),
            body: opt_chars(self.body),
            user: self.user@,
            assignee: match self.assignee {
                Some(u) => Some(u@),
                None => None,
            },
            repository: match self.repository {
                Some(r) => Some(r@),
                None => None,
            },
        }
    }
}

/// A project board.
#[derive(Clone, Debug, PartialEq, Eq)]
pub struct Project {
    pub name: String,
    pub html_url: Option<String>,
}

/// Mathematical model of a [`Project`].
pub struct ProjectView {
    pub name: Seq<char>,
    pub html_url: Option<Seq<char>>,
}

impl View for Project {
    type V = ProjectView;

    open spec fn view(&self) -> ProjectView {
        ProjectView { name: self.name@, html_url: opt_chars(self.html_url) }
    }
}

/// A column of a project board.
#[derive(Clone, Copy, Debug, PartialEq, Eq, Structural)]
pub struct ProjectColumn {
    pub id: i64,
}

/// A card that links an issue to a column of a project board.
#[derive(Clone, Copy, Debug, PartialEq, Eq, Structural)]
pub struct ProjectCard {
    pub id: i64,
    pub project_id: i64,
    pub column_id: i64,
}

/// The latest event that placed or moved the card of an issue.
#[derive(Clone, Debug, PartialEq, Eq)]
pub struct IssueEvent {
    pub actor: User,
    pub project_card: Option<ProjectCard>,
}

} // verus!
