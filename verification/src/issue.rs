//! One pass over one issue: the executable form of the triage policy.

use crate::action::{actions_view, no_actions, push_action, Action, ActionView};
use crate::bots::Bot;
use crate::constants::{
    issue_revert_project_notification, project_confirmation, project_needs_backlog,
    will_close_for_no_project,
};
use crate::duration_ticks::{elapsed_since, ticks};
use crate::error::Error;
use crate::github::{Issue, IssueEvent, Project, ProjectCard, ProjectColumn, User};
use crate::local_state::{IssueProject, IssueProjectState, LocalState, LocalStateView};
use crate::policy;
use crate::policy::{AttachedCardView, Outcome, ProjectEntryView};
use crate::process::ProcessInfo;
use crate::search::{first_from, lemma_first_from_skips};
use vstd::prelude::*;

verus! {

/// A card seen on an issue: who placed it, and in which project and column.
#[derive(Clone, Debug, PartialEq, Eq)]
pub struct AttachedCard {
    pub actor: User,
    pub project: Project,
    pub project_column: ProjectColumn,
}

impl View for AttachedCard {
    type V = AttachedCardView;

    open spec fn view(&self) -> AttachedCardView {
        AttachedCardView {
            actor: self.actor@,
            project: self.project@,
            project_column: self.project_column,
        }
    }
}

/// The model of a project entry.
pub open spec fn entry_view(entry: (Option<Project>, ProcessInfo)) -> ProjectEntryView {
    (
        match entry.0 {
            Some(p) => Some(p@),
            None => None,
        },
        entry.1@,
    )
}

/// The models of the project entries of a repository, in the same order.
pub open spec fn projects_view(projects: Seq<(Option<Project>, ProcessInfo)>) -> Seq<
    ProjectEntryView,
> {
    projects.map_values(|e: (Option<Project>, ProcessInfo)| entry_view(e))
}

/// The model of an optional card.
pub open spec fn card_view(card: Option<&AttachedCard>) -> Option<AttachedCardView> {
    match card {
        Some(c) => Some(c@),
        None => None,
    }
}

/// The executable pass did what the policy says: on a decision it left the
/// record in the decided state and returned the decided actions, and on a
/// refusal it returned the reason and left the record alone.
pub open spec fn carried_out(
    before: LocalStateView,
    after: LocalStateView,
    result: Result<Vec<Action>, Error>,
    outcome: Outcome,
) -> bool {
    match outcome {
        Ok(decision) => {
            &&& result matches Ok(actions)
            &&& actions_view(actions@) == decision.actions
            &&& after == decision.state
        },
        Err(reason) => {
            &&& result matches Err(e)
            &&& e == reason
            &&& after == before
        },
    }
}

fn text_or_empty(field: &Option<String>) -> (text: String)
    ensures
        text@ == policy::text_or_empty(crate::github::opt_chars(*field)),
{
    match field {
        Some(t) => t.clone(),
        None => String::new(),
    }
}

fn same_link(a: &IssueProject, b: &IssueProject) -> (same: bool)
    ensures
        same == (a@ == b@),
{
    let same_state = match (a.state, b.state) {
        (IssueProjectState::Confirmed, IssueProjectState::Confirmed) => true,
        (IssueProjectState::Unconfirmed, IssueProjectState::Unconfirmed) => true,
        (IssueProjectState::Denied, IssueProjectState::Denied) => true,
        _ => false,
    };
    same_state && a.actor_login == b.actor_login && a.project_column_id == b.project_column_id
}

fn clone_link(link: &Option<IssueProject>) -> (copy: Option<IssueProject>)
    ensures
        crate::local_state::opt_link(copy) == crate::local_state::opt_link(*link),
{
    match link {
        Some(p) => Some(p.clone()),
        None => None,
    }
}

impl Bot {
    /// The card of an issue and the user who placed it, taken from the
    /// latest event that moved a card of the issue. Nothing where there is
    /// no such event, or where the event carries no card.
    pub fn issue_actor_and_project_card(event: Option<IssueEvent>) -> (found: Option<
        (User, ProjectCard),
    >)
        ensures
            match event {
                Some(e) => match e.project_card {
                    Some(card) => found == Some((e.actor, card)),
                    None => found is None,
                },
                None => found is None,
            },
    {
        match event {
            Some(e) => match e.project_card {
                Some(card) => Some((e.actor, card)),
                None => None,
            },
            None => None,
        }
    }

    /// The name of the column that takes the new issues of a project.
    pub fn backlog_column_name<'a>(&'a self, process_info: &'a ProcessInfo) -> (name: &'a String)
        ensures
            name@ == policy::backlog_column_name(self@, process_info@),
    {
        match &process_info.backlog {
            Some(name) => name,
            None => &self.config.project_backlog_column_name,
        }
    }

    /// The position of the first project entry for which `login` is special.
    pub fn special_of_project(
        projects: &Vec<(Option<Project>, ProcessInfo)>,
        login: &String,
    ) -> (found: Option<usize>)
        ensures
            match found {
                Some(i) => policy::first_special(projects_view(projects@), login@) == Some(i as int)
                    && i < projects.len(),
                None => policy::first_special(projects_view(projects@), login@) is None,
            },
    {
        let ghost pred = |e: ProjectEntryView| e.1.is_special(login@);
        let ghost entries = projects_view(projects@);
        let mut i: usize = 0;
        while i < projects.len()
            invariant
                i <= projects.len(),
                entries == projects_view(projects@),
                pred == (|e: ProjectEntryView| e.1.is_special(login@)),
                forall|j: int| 0 <= j < i ==> !pred(#[trigger] entries[j]),
            decreases projects.len() - i,
        {
            if projects[i].1.is_special(login) {
                proof {
                    lemma_first_from_skips(entries, pred, 0, i as int);
                    assert(entries[i as int] == entry_view(projects@[i as int]));
                    assert(pred(entries[i as int]));
                    assert(first_from(entries, pred, i as int) == Some(i as int));
                }
                return Some(i);
            }
            proof {
                assert(entries[i as int] == entry_view(projects@[i as int]));
            }
            i = i + 1;
        }
        proof {
            lemma_first_from_skips(entries, pred, 0, i as int);
        }
        None
    }

    /// The position of the first project entry whose project is named
    /// `name`.
    pub fn project_named(projects: &Vec<(Option<Project>, ProcessInfo)>, name: &String) -> (found:
        Option<usize>)
        ensures
            match found {
                Some(i) => policy::first_named(projects_view(projects@), name@) == Some(i as int)
                    && i < projects.len(),
                None => policy::first_named(projects_view(projects@), name@) is None,
            },
    {
        let ghost pred = |e: ProjectEntryView| e.0 matches Some(p) && p.name == name@;
        let ghost entries = projects_view(projects@);
        let mut i: usize = 0;
        while i < projects.len()
            invariant
                i <= projects.len(),
                entries == projects_view(projects@),
                pred == (|e: ProjectEntryView| e.0 matches Some(p) && p.name == name@),
                forall|j: int| 0 <= j < i ==> !pred(#[trigger] entries[j]),
            decreases projects.len() - i,
        {
            let same = match &projects[i].0 {
                Some(p) => p.name == *name,
                None => false,
            };
            proof {
                assert(entries[i as int] == entry_view(projects@[i as int]));
            }
            if same {
                proof {
                    lemma_first_from_skips(entries, pred, 0, i as int);
                    assert(pred(entries[i as int]));
                    assert(first_from(entries, pred, i as int) == Some(i as int));
                }
                return Some(i);
            }
            i = i + 1;
        }
        proof {
            lemma_first_from_skips(entries, pred, 0, i as int);
        }
        None
    }

    /// Opens a confirmation window for the card that `actor` placed in
    /// `project_column`, and asks the room of the project to confirm.
    pub fn request_confirmation(
        &self,
        local_state: &mut LocalState,
        issue: &Issue,
        project: &Project,
        project_column: &ProjectColumn,
        process_info: &ProcessInfo,
        actor: &User,
        now: u64,
    ) -> (result: Result<Vec<Action>, Error>)
        ensures
            carried_out(
                old(local_state)@,
                final(local_state)@,
                result,
                policy::request_confirmation(
                    self@,
                    old(local_state)@,
                    issue@,
                    project@,
                    *project_column,
                    process_info@,
                    actor@,
                    now,
                ),
            ),
    {
        let issue_url = match &issue.html_url {
            Some(url) => url,
            None => {
                return Err(Error::MissingData);
            },
        };
        let project_url = match &project.html_url {
            Some(url) => url,
            None => {
                return Err(Error::MissingData);
            },
        };
        let issue_id = match issue.id {
            Some(id) => id,
            None => {
                return Err(Error::MissingData);
            },
        };
        let msg = project_confirmation(
            issue_url.as_str(),
            project_url.as_str(),
            issue_id,
            project_column.id,
            self.config.project_confirmation_timeout,
        );
        local_state.update_issue_confirm_project_ping(Some(now));
        local_state.update_issue_project(
            Some(
                IssueProject {
                    state: IssueProjectState::Unconfirmed,
                    actor_login: actor.login.clone(),
                    project_column_id: project_column.id,
                },
            ),
        );
        let mut actions = no_actions();
        push_action(&mut actions, Action::SaveState);
        push_action(
            &mut actions,
            Action::SendToRoom(
                self.matrix_bot.send_to_room(process_info.matrix_room_id.as_str(), msg.as_str()),
            ),
        );
        proof {
            let decided = policy::request_confirmation(
                self@,
                old(local_state)@,
                issue@,
                project@,
                *project_column,
                process_info@,
                actor@,
                now,
            );
            assert(actions_view(actions@) =~= decided->Ok_0.actions);
        }
        Ok(actions)
    }

    /// Appends what puts the issue back where it was last confirmed: a card
    /// in the last confirmed column where there is one, then a private
    /// notice for `login` where it has a chat identity.
    fn push_restore_actions(
        &self,
        actions: &mut Vec<Action>,
        local_state: &LocalState,
        issue_id: i64,
        issue_url: &String,
        login: &String,
    )
        ensures
            actions_view(final(actions)@) == actions_view(old(actions)@) + policy::restore_actions(
                self@,
                local_state@,
                issue_id,
                issue_url@,
                login@,
            ),
    {
        let ghost before = actions_view(actions@);
        match &local_state.last_confirmed_issue_project {
            Some(last) => {
                push_action(
                    actions,
                    Action::CreateProjectCard {
                        project_column_id: last.project_column_id,
                        issue_id,
                    },
                );
            },
            None => {},
        }
        match self.matrix_id_of(login) {
            Some(user_id) => {
                let msg = issue_revert_project_notification(issue_url.as_str());
                push_action(
                    actions,
                    Action::SendPrivateMessage { user_id: user_id.clone(), msg },
                );
            },
            None => {},
        }
        assert(actions_view(actions@) =~= before + policy::restore_actions(
            self@,
            local_state@,
            issue_id,
            issue_url@,
            login@,
        ));
    }

    /// Undoes the placement on record: closes the window and returns to the
    /// last confirmed link, if any.
    fn revert(local_state: &mut LocalState)
        ensures
            final(local_state)@ == policy::reverted(old(local_state)@),
    {
        let last = clone_link(&local_state.last_confirmed_issue_project);
        local_state.update_issue_confirm_project_ping(None);
        local_state.update_issue_project(last);
    }

    /// A card is seen on an issue for which no link is on record: a
    /// confirmation window opens for it.
    pub fn author_non_special_project_state_none(
        &self,
        local_state: &mut LocalState,
        issue: &Issue,
        project: &Project,
        project_column: &ProjectColumn,
        process_info: &ProcessInfo,
        actor: &User,
        now: u64,
    ) -> (result: Result<Vec<Action>, Error>)
        ensures
            carried_out(
                old(local_state)@,
                final(local_state)@,
                result,
                policy::project_state_none(
                    self@,
                    old(local_state)@,
                    issue@,
                    project@,
                    *project_column,
                    process_info@,
                    actor@,
                    now,
                ),
            ),
    {
        self.request_confirmation(
            local_state,
            issue,
            project,
            project_column,
            process_info,
            actor,
            now,
        )
    }

    /// A card is seen on an issue whose link awaits confirmation.
    ///
    /// A card in another column opens a new window for that column. A card
    /// in the same column is left alone until one full confirmation timeout
    /// has passed since the window opened; from then on the placement is
    /// undone: the card is removed, the last confirmed card is put back, and
    /// whoever placed the card is told, if they can be reached.
    pub fn author_non_special_project_state_unconfirmed(
        &self,
        local_state: &mut LocalState,
        issue: &Issue,
        project: &Project,
        project_column: &ProjectColumn,
        process_info: &ProcessInfo,
        actor: &User,
        now: u64,
    ) -> (result: Result<Vec<Action>, Error>)
        requires
            old(local_state)@.issue_project is Some,
            policy::confirmation_wait_is_defined(
                self@,
                old(local_state)@,
                issue@,
                *project_column,
                now,
            ),
        ensures
            carried_out(
                old(local_state)@,
                final(local_state)@,
                result,
                policy::project_state_unconfirmed(
                    self@,
                    old(local_state)@,
                    issue@,
                    project@,
                    *project_column,
                    process_info@,
                    actor@,
                    now,
                ),
            ),
    {
        let issue_id = match issue.id {
            Some(id) => id,
            None => {
                return Err(Error::MissingData);
            },
        };
        let issue_url = match &issue.html_url {
            Some(url) => url,
            None => {
                return Err(Error::MissingData);
            },
        };
        let unconfirmed_id = match &local_state.issue_project {
            Some(link) => link.project_column_id,
            None => {
                return Err(Error::MissingData);
            },
        };
        if project_column.id != unconfirmed_id {
            return self.request_confirmation(
                local_state,
                issue,
                project,
                project_column,
                process_info,
                actor,
                now,
            );
        }
        let waited = ticks(
            elapsed_since(local_state.issue_confirm_project_ping, now),
            self.config.project_confirmation_timeout,
        );
        match waited {
            Some(0) => Ok(no_actions()),
            _ => {
                let mut actions = no_actions();
                push_action(&mut actions, Action::SaveState);
                push_action(
                    &mut actions,
                    Action::DeleteProjectCard { project_column_id: unconfirmed_id },
                );
                self.push_restore_actions(
                    &mut actions,
                    local_state,
                    issue_id,
                    issue_url,
                    &actor.login,
                );
                Self::revert(local_state);
                proof {
                    let decided = policy::project_state_unconfirmed(
                        self@,
                        old(local_state)@,
                        issue@,
                        project@,
                        *project_column,
                        process_info@,
                        actor@,
                        now,
                    );
                    assert(actions_view(actions@) =~= decided->Ok_0.actions);
                }
                Ok(actions)
            },
        }
    }

    /// A card is seen on an issue whose link was denied.
    ///
    /// A card in another column opens a new window for that column. A card
    /// in the denied column is undone at once, however little time has
    /// passed: the last confirmed card is put back, and whoever made the
    /// denied placement is told, if they can be reached.
    pub fn author_non_special_project_state_denied(
        &self,
        local_state: &mut LocalState,
        issue: &Issue,
        project: &Project,
        project_column: &ProjectColumn,
        process_info: &ProcessInfo,
        actor: &User,
        now: u64,
    ) -> (result: Result<Vec<Action>, Error>)
        requires
            old(local_state)@.issue_project is Some,
        ensures
            carried_out(
                old(local_state)@,
                final(local_state)@,
                result,
                policy::project_state_denied(
                    self@,
                    old(local_state)@,
                    issue@,
                    project@,
                    *project_column,
                    process_info@,
                    actor@,
                    now,
                ),
            ),
    {
        let issue_id = match issue.id {
            Some(id) => id,
            None => {
                return Err(Error::MissingData);
            },
        };
        let issue_url = match &issue.html_url {
            Some(url) => url,
            None => {
                return Err(Error::MissingData);
            },
        };
        let (denied_id, denied_login) = match &local_state.issue_project {
            Some(link) => (link.project_column_id, link.actor_login.clone()),
            None => {
                return Err(Error::MissingData);
            },
        };
        if project_column.id != denied_id {
            return self.request_confirmation(
                local_state,
                issue,
                project,
                project_column,
                process_info,
                actor,
                now,
            );
        }
        let mut actions = no_actions();
        push_action(&mut actions, Action::SaveState);
        self.push_restore_actions(&mut actions, local_state, issue_id, issue_url, &denied_login);
        Self::revert(local_state);
        proof {
            let decided = policy::project_state_denied(
                self@,
                old(local_state)@,
                issue@,
                project@,
                *project_column,
                process_info@,
                actor@,
                now,
            );
            assert(actions_view(actions@) =~= decided->Ok_0.actions);
        }
        Ok(actions)
    }

    /// A card is seen on an issue whose link is confirmed.
    ///
    /// The confirmed link is first noted as the one to return to. A card in
    /// the confirmed column then changes nothing more; a card in another
    /// column demotes the link to unconfirmed and opens a window for the
    /// new column.
    pub fn author_non_special_project_state_confirmed(
        &self,
        local_state: &mut LocalState,
        issue: &Issue,
        project: &Project,
        project_column: &ProjectColumn,
        process_info: &ProcessInfo,
        actor: &User,
        now: u64,
    ) -> (result: Result<Vec<Action>, Error>)
        requires
            old(local_state)@.issue_project is Some,
        ensures
            carried_out(
                old(local_state)@,
                final(local_state)@,
                result,
                policy::project_state_confirmed(
                    self@,
                    old(local_state)@,
                    issue@,
                    project@,
                    *project_column,
                    process_info@,
                    actor@,
                    now,
                ),
            ),
    {
        let (confirmed_id, confirmed_matches_last) = match &local_state.issue_project {
            Some(link) => (
                link.project_column_id,
                match &local_state.last_confirmed_issue_project {
                    Some(last) => same_link(last, link),
                    None => false,
                },
            ),
            None => {
                return Err(Error::MissingData);
            },
        };
        if project_column.id != confirmed_id {
            if issue.html_url.is_none() || project.html_url.is_none() || issue.id.is_none() {
                return Err(Error::MissingData);
            }
            if !confirmed_matches_last {
                let current = clone_link(&local_state.issue_project);
                local_state.update_issue_confirm_project_ping(None);
                local_state.update_last_confirmed_issue_project(current);
            }
            self.request_confirmation(
                local_state,
                issue,
                project,
                project_column,
                process_info,
                actor,
                now,
            )
        } else if confirmed_matches_last {
            Ok(no_actions())
        } else {
            let current = clone_link(&local_state.issue_project);
            local_state.update_issue_confirm_project_ping(None);
            local_state.update_last_confirmed_issue_project(current);
            let mut actions = no_actions();
            push_action(&mut actions, Action::SaveState);
            assert(actions_view(actions@) =~= seq![ActionView::SaveState]);
            Ok(actions)
        }
    }

    /// The author of an issue without a project is special for the only
    /// project of the repository. `backlog_column` is the column of that
    /// project that bears the backlog name, if there is one.
    ///
    /// With a backlog column the issue is attached there at once, as
    /// confirmed. Without one nothing is attached, and the room of the
    /// project is told that a backlog column is needed.
    pub fn author_special_attach_only_project(
        &self,
        local_state: &mut LocalState,
        issue: &Issue,
        project: &Project,
        process_info: &ProcessInfo,
        backlog_column: Option<ProjectColumn>,
    ) -> (result: Result<Vec<Action>, Error>)
        ensures
            carried_out(
                old(local_state)@,
                final(local_state)@,
                result,
                policy::special_attach_only_project(
                    self@,
                    old(local_state)@,
                    issue@,
                    project@,
                    process_info@,
                    backlog_column,
                ),
            ),
    {
        match backlog_column {
            Some(column) => {
                let issue_id = match issue.id {
                    Some(id) => id,
                    None => {
                        return Err(Error::MissingData);
                    },
                };
                local_state.update_issue_project(
                    Some(
                        IssueProject {
                            state: IssueProjectState::Confirmed,
                            actor_login: issue.user.login.clone(),
                            project_column_id: column.id,
                        },
                    ),
                );
                let mut actions = no_actions();
                push_action(&mut actions, Action::SaveState);
                push_action(
                    &mut actions,
                    Action::CreateProjectCard { project_column_id: column.id, issue_id },
                );
                assert(actions_view(actions@) =~= seq![
                    ActionView::SaveState,
                    ActionView::CreateProjectCard { project_column_id: column.id, issue_id },
                ]);
                Ok(actions)
            },
            None => {
                let project_url = match &project.html_url {
                    Some(url) => url,
                    None => {
                        return Err(Error::MissingData);
                    },
                };
                let msg = project_needs_backlog(
                    process_info.owner_or_delegate().as_str(),
                    project_url.as_str(),
                );
                let request = self.matrix_bot.send_to_room(
                    process_info.matrix_room_id.as_str(),
                    msg.as_str(),
                );
                let ghost sent = ActionView::SendToRoom(request@);
                let mut actions = no_actions();
                push_action(&mut actions, Action::SendToRoom(request));
                assert(actions_view(actions@) =~= seq![sent]);
                Ok(actions)
            },
        }
    }

    /// Starts the clock for an issue without a project and sends the
    /// reminder.
    fn start_no_project_clock(
        &self,
        local_state: &mut LocalState,
        issue: &Issue,
        issue_url: &String,
        now: u64,
    ) -> (result: Result<Vec<Action>, Error>)
        requires
            issue@.html_url == Some(issue_url@),
        ensures
            carried_out(
                old(local_state)@,
                final(local_state)@,
                result,
                policy::start_no_project_clock(self@, old(local_state)@, issue@, now),
            ),
    {
        local_state.update_issue_no_project_ping(Some(now));
        let mut actions = no_actions();
        push_action(&mut actions, Action::SaveState);
        self.push_reminder(&mut actions, issue, issue_url);
        assert(actions_view(actions@) =~= seq![
            ActionView::SaveState,
            policy::reminder(self@, issue@),
        ]);
        Ok(actions)
    }

    /// Appends the reminder that the issue will be closed.
    fn push_reminder(&self, actions: &mut Vec<Action>, issue: &Issue, issue_url: &String)
        requires
            issue@.html_url == Some(issue_url@),
        ensures
            actions_view(final(actions)@) == actions_view(old(actions)@).push(
                policy::reminder(self@, issue@),
            ),
    {
        let msg = will_close_for_no_project(issue.user.login.as_str(), issue_url.as_str());
        push_action(actions, Action::SendToRoom(self.matrix_bot.send_to_default(msg.as_str())));
    }

    /// Moves the issue away: it is closed where it is, opened anew in the
    /// repository for unsorted issues, and no longer tracked.
    fn relocate(&self, local_state: &mut LocalState, issue: &Issue) -> (result: Result<
        Vec<Action>,
        Error,
    >)
        ensures
            carried_out(
                old(local_state)@,
                final(local_state)@,
                result,
                policy::relocate(self@, old(local_state)@, issue@),
            ),
    {
        let repository = match &issue.repository {
            Some(r) => r,
            None => {
                return Err(Error::MissingData);
            },
        };
        let close = Action::CloseIssue {
            repo_name: repository.name.clone(),
            issue_number: issue.number,
        };
        let assignee = match &issue.assignee {
            Some(a) => a.login.clone(),
            None => String::new(),
        };
        let title = text_or_empty(&issue.title);
        let body = text_or_empty(&issue.body);
        let ghost expected = policy::relocate(self@, local_state@, issue@)->Ok_0.actions;
        let create = Action::CreateIssue {
            repo_name: self.config.core_sorting_repo_name.clone(),
            title,
            body,
            assignee,
        };
        let ghost steps = seq![close@, create@, ActionView::DeleteState];
        let mut actions = no_actions();
        push_action(&mut actions, close);
        push_action(&mut actions, create);
        push_action(&mut actions, Action::DeleteState);
        local_state.delete();
        assert(actions_view(actions@) =~= steps);
        assert(steps =~= expected);
        Ok(actions)
    }

    /// An issue without a project whose author is trusted, or special for
    /// some project of the repository. `since` is the time for which the
    /// issue has been known to lack a project.
    ///
    /// The first observation starts the clock and sends a reminder. Before
    /// the first reminder interval has passed nothing happens. After that
    /// each pass sends a reminder and counts it, until the tick count
    /// reaches the quotient of the closing span and the reminder interval:
    /// then the issue is moved away.
    pub fn issue_author_core_no_project(
        &self,
        local_state: &mut LocalState,
        issue: &Issue,
        since: Option<u64>,
        now: u64,
    ) -> (result: Result<Vec<Action>, Error>)
        requires
            policy::core_escalation_is_defined(self@, issue@, since),
        ensures
            carried_out(
                old(local_state)@,
                final(local_state)@,
                result,
                policy::author_core_no_project(self@, old(local_state)@, issue@, since, now),
            ),
    {
        let issue_url = match &issue.html_url {
            Some(url) => url,
            None => {
                return Err(Error::MissingData);
            },
        };
        match ticks(since, self.config.no_project_author_is_core_ping) {
            None => self.start_no_project_clock(local_state, issue, issue_url, now),
            Some(i) => {
                if i == 0 {
                    Ok(no_actions())
                } else if i >= self.config.no_project_author_is_core_close_pr
                    / self.config.no_project_author_is_core_ping {
                    self.relocate(local_state, issue)
                } else {
                    local_state.update_issue_no_project_npings(
                        local_state.issue_no_project_npings.saturating_add(1),
                    );
                    let mut actions = no_actions();
                    push_action(&mut actions, Action::SaveState);
                    self.push_reminder(&mut actions, issue, issue_url);
                    assert(actions_view(actions@) =~= seq![
                        ActionView::SaveState,
                        policy::reminder(self@, issue@),
                    ]);
                    Ok(actions)
                }
            },
        }
    }

    /// An issue without a project whose author is neither trusted nor
    /// special. `since` is the time for which the issue has been known to
    /// lack a project.
    ///
    /// The first observation starts the clock and sends the one reminder.
    /// Before the timeout has passed nothing happens; from then on the issue
    /// is moved away.
    pub fn issue_author_unknown_no_project(
        &self,
        local_state: &mut LocalState,
        issue: &Issue,
        since: Option<u64>,
        now: u64,
    ) -> (result: Result<Vec<Action>, Error>)
        requires
            policy::unknown_escalation_is_defined(self@, issue@, since),
        ensures
            carried_out(
                old(local_state)@,
                final(local_state)@,
                result,
                policy::author_unknown_no_project(self@, old(local_state)@, issue@, since, now),
            ),
    {
        let issue_url = match &issue.html_url {
            Some(url) => url,
            None => {
                return Err(Error::MissingData);
            },
        };
        match ticks(since, self.config.no_project_author_not_core_close_pr) {
            None => self.start_no_project_clock(local_state, issue, issue_url, now),
            Some(i) => {
                if i == 0 {
                    Ok(no_actions())
                } else {
                    self.relocate(local_state, issue)
                }
            },
        }
    }

    /// The project entry for which the author of an issue without a project
    /// may attach it directly: the only entry of the repository, if its
    /// project exists and the author is special for it. The caller looks up
    /// the backlog column of that project before the pass.
    pub fn attach_target<'a>(
        projects: &'a Vec<(Option<Project>, ProcessInfo)>,
        issue: &Issue,
    ) -> (target: Option<(&'a Project, &'a ProcessInfo)>)
        ensures
            target is Some <==> policy::attaches_directly(projects_view(projects@), issue@),
            target matches Some((project, process_info)) ==> projects@[0].0 == Some(*project)
                && projects@[0].1 == *process_info,
    {
        proof {
            if projects@.len() == 1 {
                assert(projects_view(projects@)[0] == entry_view(projects@[0]));
            }
        }
        if projects.len() != 1 {
            return None;
        }
        match &projects[0].0 {
            Some(project) => {
                if projects[0].1.is_special(&issue.user.login) {
                    Some((project, &projects[0].1))
                } else {
                    None
                }
            },
            None => None,
        }
    }

    /// The pass over an issue on which no card is seen.
    fn handle_no_project(
        &self,
        local_state: &mut LocalState,
        projects: &Vec<(Option<Project>, ProcessInfo)>,
        issue: &Issue,
        backlog_column: Option<ProjectColumn>,
        now: u64,
    ) -> (result: Result<Vec<Action>, Error>)
        requires
            policy::no_project_pass_is_defined(
                self@,
                old(local_state)@,
                projects_view(projects@),
                issue@,
                now,
            ),
        ensures
            carried_out(
                old(local_state)@,
                final(local_state)@,
                result,
                policy::handle_no_project(
                    self@,
                    old(local_state)@,
                    projects_view(projects@),
                    issue@,
                    backlog_column,
                    now,
                ),
            ),
    {
        let since = elapsed_since(local_state.issue_no_project_ping, now);
        match Self::attach_target(projects, issue) {
            Some((project, process_info)) => {
                proof {
                    assert(projects_view(projects@)[0] == entry_view(projects@[0]));
                }
                self.author_special_attach_only_project(
                    local_state,
                    issue,
                    project,
                    process_info,
                    backlog_column,
                )
            },
            None => {
                let special = Self::special_of_project(projects, &issue.user.login);
                if self.is_core_dev(&issue.user) || special.is_some() {
                    self.issue_author_core_no_project(local_state, issue, since, now)
                } else {
                    self.issue_author_unknown_no_project(local_state, issue, since, now)
                }
            },
        }
    }

    /// The pass over an issue on which a card is seen.
    fn handle_attached(
        &self,
        local_state: &mut LocalState,
        projects: &Vec<(Option<Project>, ProcessInfo)>,
        issue: &Issue,
        card: &AttachedCard,
        now: u64,
    ) -> (result: Result<Vec<Action>, Error>)
        requires
            policy::attached_pass_is_defined(
                self@,
                old(local_state)@,
                projects_view(projects@),
                issue@,
                card@,
                now,
            ),
        ensures
            carried_out(
                old(local_state)@,
                final(local_state)@,
                result,
                policy::handle_attached(
                    self@,
                    old(local_state)@,
                    projects_view(projects@),
                    issue@,
                    card@,
                    now,
                ),
            ),
    {
        let process_info = match Self::project_named(projects, &card.project.name) {
            Some(i) => {
                proof {
                    assert(projects_view(projects@)[i as int] == entry_view(projects@[i as int]));
                }
                &projects[i].1
            },
            None => {
                return Ok(no_actions());
            },
        };
        if process_info.is_special(&card.actor.login) {
            return Ok(no_actions());
        }
        let state = match &local_state.issue_project {
            Some(link) => Some(link.state),
            None => None,
        };
        match state {
            None => self.author_non_special_project_state_none(
                local_state,
                issue,
                &card.project,
                &card.project_column,
                process_info,
                &card.actor,
                now,
            ),
            Some(IssueProjectState::Unconfirmed) => {
                self.author_non_special_project_state_unconfirmed(
                    local_state,
                    issue,
                    &card.project,
                    &card.project_column,
                    process_info,
                    &card.actor,
                    now,
                )
            },
            Some(IssueProjectState::Denied) => self.author_non_special_project_state_denied(
                local_state,
                issue,
                &card.project,
                &card.project_column,
                process_info,
                &card.actor,
                now,
            ),
            Some(IssueProjectState::Confirmed) => self.author_non_special_project_state_confirmed(
                local_state,
                issue,
                &card.project,
                &card.project_column,
                process_info,
                &card.actor,
                now,
            ),
        }
    }

    /// Whether a pass can be decided: on the path that the pass takes,
    /// every interval that is divided by is positive, and a confirmation
    /// that is waited for has a window that opened at or before `now`.
    pub fn can_handle_issue(
        &self,
        local_state: &LocalState,
        projects: &Vec<(Option<Project>, ProcessInfo)>,
        issue: &Issue,
        card: Option<&AttachedCard>,
        now: u64,
    ) -> (defined: bool)
        ensures
            defined == policy::pass_is_defined(
                self@,
                local_state@,
                projects_view(projects@),
                issue@,
                card_view(card),
                now,
            ),
    {
        if issue.id.is_none() || projects.len() == 0 {
            return true;
        }
        match card {
            None => {
                if Self::attach_target(projects, issue).is_some() {
                    return true;
                }
                let since = elapsed_since(local_state.issue_no_project_ping, now);
                let special = Self::special_of_project(projects, &issue.user.login);
                let interval = if self.is_core_dev(&issue.user) || special.is_some() {
                    self.config.no_project_author_is_core_ping
                } else {
                    self.config.no_project_author_not_core_close_pr
                };
                issue.html_url.is_none() || since.is_none() || interval > 0
            },
            Some(card) => {
                let process_info = match Self::project_named(projects, &card.project.name) {
                    Some(i) => {
                        proof {
                            assert(projects_view(projects@)[i as int] == entry_view(
                                projects@[i as int],
                            ));
                        }
                        &projects[i].1
                    },
                    None => {
                        return true;
                    },
                };
                if process_info.is_special(&card.actor.login) {
                    return true;
                }
                match &local_state.issue_project {
                    Some(link) => match link.state {
                        IssueProjectState::Unconfirmed => {
                            if issue.html_url.is_none() || card.project_column.id
                                != link.project_column_id {
                                return true;
                            }
                            let opened_by_now = match local_state.issue_confirm_project_ping {
                                Some(opened) => opened <= now,
                                None => false,
                            };
                            self.config.project_confirmation_timeout > 0 && opened_by_now
                        },
                        _ => true,
                    },
                    None => true,
                }
            },
        }
    }

    /// One pass over one issue.
    ///
    /// `local_state` is the automation record of the issue, `projects` are
    /// the project entries of its repository, `card` is the card seen on the
    /// issue, if any, and `now` is the clock reading in seconds.
    /// `backlog_column` is the backlog column of the project that
    /// [`Bot::attach_target`] names, if it has one; it matters only where the
    /// author attaches directly.
    ///
    /// The pass must be one that can be decided; [`Bot::can_handle_issue`]
    /// tells. The pass is refused, with the record untouched, when the issue
    /// lacks a field that the decision needs. Nothing happens for a repository
    /// without project entries, for a card in a project that has no entry,
    /// and for a card placed by a user who is special for its project.
    /// Otherwise the record is left as the policy decides, and the actions
    /// that the policy decides are returned in order.
    pub fn handle_issue(
        &self,
        local_state: &mut LocalState,
        projects: &Vec<(Option<Project>, ProcessInfo)>,
        issue: &Issue,
        card: Option<&AttachedCard>,
        backlog_column: Option<ProjectColumn>,
        now: u64,
    ) -> (result: Result<Vec<Action>, Error>)
        requires
            policy::pass_is_defined(
                self@,
                old(local_state)@,
                projects_view(projects@),
                issue@,
                card_view(card),
                now,
            ),
        ensures
            carried_out(
                old(local_state)@,
                final(local_state)@,
                result,
                policy::handle_issue(
                    self@,
                    old(local_state)@,
                    projects_view(projects@),
                    issue@,
                    card_view(card),
                    backlog_column,
                    now,
                ),
            ),
            old(local_state)@.well_formed() ==> final(local_state)@.well_formed(),
            old(local_state)@.window_opened_by(now) ==> final(local_state)@.window_opened_by(now),
    {
        proof {
            crate::laws::lemma_pass_keeps_record_well_formed(
                self@,
                local_state@,
                projects_view(projects@),
                issue@,
                card_view(card),
                backlog_column,
                now,
            );
        }
        if issue.id.is_none() {
            return Err(Error::MissingData);
        }
        if projects.len() == 0 {
            return Ok(no_actions());
        }
        match card {
            None => self.handle_no_project(local_state, projects, issue, backlog_column, now),
            Some(card) => self.handle_attached(local_state, projects, issue, card, now),
        }
    }
}

} // verus!
