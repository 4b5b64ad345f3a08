//! The triage policy as a mathematical function: from the automation record
//! and what was observed to the new record and the actions that are due.

use crate::action::ActionView;
use crate::bots::BotView;
use crate::constants::{
    issue_revert_project_notification_text, project_confirmation_text,
    project_needs_backlog_text, will_close_for_no_project_text,
};
use crate::duration_ticks::{spec_elapsed_since, spec_ticks};
use crate::error::Error;
use crate::github::{IssueView, ProjectColumn, ProjectView, UserView};
use crate::local_state::{IssueProjectState, IssueProjectView, LocalStateView};
use crate::matrix_bot::room_message;
use crate::process::ProcessInfoView;
use crate::search::first_where;
use vstd::prelude::*;

verus! {

/// What a pass decides: the record as it is to be from now on, and the side
/// effects in the order in which they are due.
pub struct Decision {
    pub state: LocalStateView,
    pub actions: Seq<ActionView>,
}

/// The result of a pass: a decision, or the reason why none was made.
pub type Outcome = Result<Decision, Error>;

/// A project of a repository with its process settings. The project is
/// absent where the settings name a project that the repository lacks.
pub type ProjectEntryView = (Option<ProjectView>, ProcessInfoView);

/// A card seen on an issue: who placed it, and in which project and column.
pub struct AttachedCardView {
    pub actor: UserView,
    pub project: ProjectView,
    pub project_column: ProjectColumn,
}

/// The decision to leave everything as it is.
pub open spec fn unchanged(s: LocalStateView) -> Outcome {
    Ok(Decision { state: s, actions: Seq::empty() })
}

/// The record after a pass that started from `s`: a refused pass leaves the
/// record alone.
pub open spec fn state_after(s: LocalStateView, outcome: Outcome) -> LocalStateView {
    match outcome {
        Ok(d) => d.state,
        Err(_) => s,
    }
}

/// The actions of a pass: a refused pass has none.
pub open spec fn actions_of(outcome: Outcome) -> Seq<ActionView> {
    match outcome {
        Ok(d) => d.actions,
        Err(_) => Seq::empty(),
    }
}

/// The link of a card that awaits approval.
pub open spec fn unconfirmed_link(actor: UserView, column: ProjectColumn) -> IssueProjectView {
    IssueProjectView {
        state: IssueProjectState::Unconfirmed,
        actor_login: actor.login,
        project_column_id: column.id,
    }
}

/// Opens a confirmation window for the card that `actor` placed in `column`:
/// the link becomes unconfirmed, the window starts at `now`, and the room of
/// the project is asked to confirm. Refused when the issue lacks its id or
/// its address, or the project its address.
pub open spec fn request_confirmation(
    bot: BotView,
    s: LocalStateView,
    issue: IssueView,
    project: ProjectView,
    column: ProjectColumn,
    info: ProcessInfoView,
    actor: UserView,
    now: u64,
) -> Outcome {
    if issue.html_url is None || project.html_url is None || issue.id is None {
        Err(Error::MissingData)
    } else {
        Ok(
            Decision {
                state: LocalStateView {
                    issue_confirm_project_ping: Some(now),
                    issue_project: Some(unconfirmed_link(actor, column)),
                    ..s
                },
                actions: seq![
                    ActionView::SaveState,
                    ActionView::SendToRoom(
                        room_message(
                            bot.matrix_bot,
                            info.matrix_room_id,
                            project_confirmation_text(
                                issue.html_url->0,
                                project.html_url->0,
                                issue.id->0,
                                column.id,
                                bot.config.project_confirmation_timeout,
                            ),
                        ),
                    ),
                ],
            },
        )
    }
}

/// The actions that put the issue back where it was last confirmed and tell
/// the user at fault: a card in the last confirmed column where there is
/// one, then a private notice where the login has a chat identity.
pub open spec fn restore_actions(
    bot: BotView,
    s: LocalStateView,
    issue_id: i64,
    issue_url: Seq<char>,
    login: Seq<char>,
) -> Seq<ActionView> {
    let card = match s.last_confirmed_issue_project {
        Some(last) => seq![
            ActionView::CreateProjectCard {
                project_column_id: last.project_column_id,
                issue_id,
            },
        ],
        None => Seq::empty(),
    };
    let notice = match bot.matrix_id_of(login) {
        Some(user_id) => seq![
            ActionView::SendPrivateMessage {
                user_id,
                msg: issue_revert_project_notification_text(issue_url),
            },
        ],
        None => Seq::empty(),
    };
    card + notice
}

/// The record after a placement was undone: the window is closed and the
/// link is the last confirmed one, if any.
pub open spec fn reverted(s: LocalStateView) -> LocalStateView {
    LocalStateView {
        issue_confirm_project_ping: None,
        issue_project: s.last_confirmed_issue_project,
        ..s
    }
}

/// A card is seen on an issue for which no link is on record.
pub open spec fn project_state_none(
    bot: BotView,
    s: LocalStateView,
    issue: IssueView,
    project: ProjectView,
    column: ProjectColumn,
    info: ProcessInfoView,
    actor: UserView,
    now: u64,
) -> Outcome {
    request_confirmation(bot, s, issue, project, column, info, actor, now)
}

/// A card is seen on an issue whose link awaits confirmation.
///
/// A card in another column opens a new window for that column. A card in
/// the same column is left alone until one full confirmation timeout has
/// passed since the window opened; from then on the placement is undone.
pub open spec fn project_state_unconfirmed(
    bot: BotView,
    s: LocalStateView,
    issue: IssueView,
    project: ProjectView,
    column: ProjectColumn,
    info: ProcessInfoView,
    actor: UserView,
    now: u64,
) -> Outcome
    recommends
        s.issue_project is Some,
        confirmation_wait_is_defined(bot, s, issue, column, now),
{
    let link = s.issue_project->0;
    if issue.id is None || issue.html_url is None {
        Err(Error::MissingData)
    } else if column.id != link.project_column_id {
        request_confirmation(bot, s, issue, project, column, info, actor, now)
    } else if spec_ticks(
        spec_elapsed_since(s.issue_confirm_project_ping, now),
        bot.config.project_confirmation_timeout,
    ) == Some(0u64) {
        unchanged(s)
    } else {
        Ok(
            Decision {
                state: reverted(s),
                actions: seq![
                    ActionView::SaveState,
                    ActionView::DeleteProjectCard { project_column_id: link.project_column_id },
                ] + restore_actions(bot, s, issue.id->0, issue.html_url->0, actor.login),
            },
        )
    }
}

/// A card is seen on an issue whose link was denied.
///
/// A card in another column opens a new window for that column. A card in
/// the denied column is undone at once, however little time has passed, and
/// the notice goes to whoever made the denied placement.
pub open spec fn project_state_denied(
    bot: BotView,
    s: LocalStateView,
    issue: IssueView,
    project: ProjectView,
    column: ProjectColumn,
    info: ProcessInfoView,
    actor: UserView,
    now: u64,
) -> Outcome
    recommends
        s.issue_project is Some,
{
    let link = s.issue_project->0;
    if issue.id is None || issue.html_url is None {
        Err(Error::MissingData)
    } else if column.id != link.project_column_id {
        request_confirmation(bot, s, issue, project, column, info, actor, now)
    } else {
        Ok(
            Decision {
                state: reverted(s),
                actions: seq![ActionView::SaveState] + restore_actions(
                    bot,
                    s,
                    issue.id->0,
                    issue.html_url->0,
                    link.actor_login,
                ),
            },
        )
    }
}

/// Whether the link to return to is the current link: the same state, the
/// same login and the same column.
pub open spec fn confirmed_matches_last(s: LocalStateView) -> bool
    recommends
        s.issue_project is Some,
{
    s.last_confirmed_issue_project == s.issue_project
}

/// The record after the current link was noted as the one to return to.
/// Nothing changes where the link to return to is the current link already.
pub open spec fn reconciled(s: LocalStateView) -> LocalStateView
    recommends
        s.issue_project is Some,
{
    if confirmed_matches_last(s) {
        s
    } else {
        LocalStateView {
            issue_confirm_project_ping: None,
            last_confirmed_issue_project: s.issue_project,
            ..s
        }
    }
}

/// A card is seen on an issue whose link is confirmed.
///
/// The confirmed link is first noted as the one to return to. A card in the
/// confirmed column then changes nothing more; a card in another column
/// demotes the link to unconfirmed and opens a window for the new column.
pub open spec fn project_state_confirmed(
    bot: BotView,
    s: LocalStateView,
    issue: IssueView,
    project: ProjectView,
    column: ProjectColumn,
    info: ProcessInfoView,
    actor: UserView,
    now: u64,
) -> Outcome
    recommends
        s.issue_project is Some,
{
    let link = s.issue_project->0;
    if column.id != link.project_column_id {
        request_confirmation(bot, reconciled(s), issue, project, column, info, actor, now)
    } else if confirmed_matches_last(s) {
        unchanged(s)
    } else {
        Ok(Decision { state: reconciled(s), actions: seq![ActionView::SaveState] })
    }
}

/// The name of the column that takes the new issues of a project: the one
/// that the project configures, else the general one.
pub open spec fn backlog_column_name(bot: BotView, info: ProcessInfoView) -> Seq<char> {
    match info.backlog {
        Some(name) => name,
        None => bot.config.project_backlog_column_name,
    }
}

/// The author of an issue without a project is special for the only project
/// of the repository.
///
/// With a backlog column the issue is attached there at once, as confirmed.
/// Without one nothing is attached, and the room of the project is told that
/// a backlog column is needed.
pub open spec fn special_attach_only_project(
    bot: BotView,
    s: LocalStateView,
    issue: IssueView,
    project: ProjectView,
    info: ProcessInfoView,
    backlog_column: Option<ProjectColumn>,
) -> Outcome {
    match backlog_column {
        Some(column) => if issue.id is None {
            Err(Error::MissingData)
        } else {
            Ok(
                Decision {
                    state: LocalStateView {
                        issue_project: Some(
                            IssueProjectView {
                                state: IssueProjectState::Confirmed,
                                actor_login: issue.user.login,
                                project_column_id: column.id,
                            },
                        ),
                        ..s
                    },
                    actions: seq![
                        ActionView::SaveState,
                        ActionView::CreateProjectCard {
                            project_column_id: column.id,
                            issue_id: issue.id->0,
                        },
                    ],
                },
            )
        },
        None => if project.html_url is None {
            Err(Error::MissingData)
        } else {
            Ok(
                Decision {
                    state: s,
                    actions: seq![
                        ActionView::SendToRoom(
                            room_message(
                                bot.matrix_bot,
                                info.matrix_room_id,
                                project_needs_backlog_text(
                                    info.owner_or_delegate(),
                                    project.html_url->0,
                                ),
                            ),
                        ),
                    ],
                },
            )
        },
    }
}

/// The text of an optional field, empty where the field is absent.
pub open spec fn text_or_empty(field: Option<Seq<char>>) -> Seq<char> {
    match field {
        Some(text) => text,
        None => Seq::empty(),
    }
}

/// The reminder that the issue will be closed, for the default room.
pub open spec fn reminder(bot: BotView, issue: IssueView) -> ActionView
    recommends
        issue.html_url is Some,
{
    ActionView::SendToRoom(
        room_message(
            bot.matrix_bot,
            bot.matrix_bot.default_channel_id,
            will_close_for_no_project_text(issue.user.login, issue.html_url->0),
        ),
    )
}

/// The clock for an issue without a project starts: the instant is
/// recorded and a reminder is sent.
pub open spec fn start_no_project_clock(
    bot: BotView,
    s: LocalStateView,
    issue: IssueView,
    now: u64,
) -> Outcome {
    Ok(
        Decision {
            state: LocalStateView { issue_no_project_ping: Some(now), ..s },
            actions: seq![ActionView::SaveState, reminder(bot, issue)],
        },
    )
}

/// The issue is moved away: closed where it is, opened anew in the
/// repository for unsorted issues with its title, body and assignee, and no
/// longer tracked. Refused when the issue does not name its repository.
pub open spec fn relocate(bot: BotView, s: LocalStateView, issue: IssueView) -> Outcome {
    if issue.repository is None {
        Err(Error::MissingData)
    } else {
        Ok(
            Decision {
                state: LocalStateView::fresh(s.key),
                actions: seq![
                    ActionView::CloseIssue {
                        repo_name: issue.repository->0.name,
                        issue_number: issue.number,
                    },
                    ActionView::CreateIssue {
                        repo_name: bot.config.core_sorting_repo_name,
                        title: text_or_empty(issue.title),
                        body: text_or_empty(issue.body),
                        assignee: match issue.assignee {
                            Some(a) => a.login,
                            None => Seq::empty(),
                        },
                    },
                    ActionView::DeleteState,
                ],
            },
        )
    }
}

/// Whether the escalation for a trusted author can be decided: where the
/// issue has its address and the clock has started, the reminder interval
/// is positive.
pub open spec fn core_escalation_is_defined(
    bot: BotView,
    issue: IssueView,
    since: Option<u64>,
) -> bool {
    issue.html_url is Some && since is Some ==> bot.config.no_project_author_is_core_ping > 0
}

/// Whether the escalation for any other author can be decided: where the
/// issue has its address and the clock has started, the closing span is
/// positive.
pub open spec fn unknown_escalation_is_defined(
    bot: BotView,
    issue: IssueView,
    since: Option<u64>,
) -> bool {
    issue.html_url is Some && since is Some ==> bot.config.no_project_author_not_core_close_pr
        > 0
}

/// Whether the wait for a confirmation can be decided: where the issue has
/// its id and its address and the card is in the column on record, the
/// confirmation timeout is positive and the window opened at or before
/// `now`.
pub open spec fn confirmation_wait_is_defined(
    bot: BotView,
    s: LocalStateView,
    issue: IssueView,
    column: ProjectColumn,
    now: u64,
) -> bool
    recommends
        s.issue_project is Some,
{
    issue.id is Some && issue.html_url is Some && column.id
        == s.issue_project->0.project_column_id ==> {
        &&& bot.config.project_confirmation_timeout > 0
        &&& s.issue_confirm_project_ping matches Some(opened) && opened <= now
    }
}

/// The tick count from which a trusted author's issue is moved away.
pub open spec fn core_close_threshold(bot: BotView) -> int
    recommends
        bot.config.no_project_author_is_core_ping > 0,
{
    bot.config.no_project_author_is_core_close_pr as int
        / bot.config.no_project_author_is_core_ping as int
}

/// An issue without a project whose author is trusted, or special for some
/// project of the repository. `since` is the time for which the issue has
/// been known to lack a project.
///
/// The first observation starts the clock and sends a reminder. Before the
/// first reminder interval has passed nothing happens. After that each pass
/// sends a reminder and counts it, until the tick count reaches the
/// threshold: then the issue is moved away. The count stops at the largest
/// number that the record can hold.
pub open spec fn author_core_no_project(
    bot: BotView,
    s: LocalStateView,
    issue: IssueView,
    since: Option<u64>,
    now: u64,
) -> Outcome
    recommends
        core_escalation_is_defined(bot, issue, since),
{
    if issue.html_url is None {
        Err(Error::MissingData)
    } else {
        match spec_ticks(since, bot.config.no_project_author_is_core_ping) {
            None => start_no_project_clock(bot, s, issue, now),
            Some(i) => if i == 0 {
                unchanged(s)
            } else if i >= core_close_threshold(bot) {
                relocate(bot, s, issue)
            } else {
                Ok(
                    Decision {
                        state: LocalStateView {
                            issue_no_project_npings: s.issue_no_project_npings.saturating_add(1),
                            ..s
                        },
                        actions: seq![ActionView::SaveState, reminder(bot, issue)],
                    },
                )
            },
        }
    }
}

/// An issue without a project whose author is neither trusted nor special.
///
/// The first observation starts the clock and sends the one reminder. Before
/// the timeout has passed nothing happens; from then on the issue is moved
/// away.
pub open spec fn author_unknown_no_project(
    bot: BotView,
    s: LocalStateView,
    issue: IssueView,
    since: Option<u64>,
    now: u64,
) -> Outcome
    recommends
        unknown_escalation_is_defined(bot, issue, since),
{
    if issue.html_url is None {
        Err(Error::MissingData)
    } else {
        match spec_ticks(since, bot.config.no_project_author_not_core_close_pr) {
            None => start_no_project_clock(bot, s, issue, now),
            Some(i) => if i == 0 {
                unchanged(s)
            } else {
                relocate(bot, s, issue)
            },
        }
    }
}

/// The first project entry for which `login` is special.
pub open spec fn first_special(projects: Seq<ProjectEntryView>, login: Seq<char>) -> Option<int> {
    first_where(projects, |e: ProjectEntryView| e.1.is_special(login))
}

/// The first project entry whose project has the name `name`.
pub open spec fn first_named(projects: Seq<ProjectEntryView>, name: Seq<char>) -> Option<int> {
    first_where(projects, |e: ProjectEntryView| e.0 matches Some(p) && p.name == name)
}

/// Whether the author of the issue may attach it without confirmation: the
/// repository has one project entry, its project exists, and the author is
/// special for it.
pub open spec fn attaches_directly(projects: Seq<ProjectEntryView>, issue: IssueView) -> bool {
    &&& projects.len() == 1
    &&& projects[0].0 is Some
    &&& projects[0].1.is_special(issue.user.login)
}

/// Whether the author of the issue is trusted, or special for some project
/// of the repository.
pub open spec fn author_is_trusted(
    bot: BotView,
    projects: Seq<ProjectEntryView>,
    issue: IssueView,
) -> bool {
    bot.is_core(issue.user.id) || first_special(projects, issue.user.login) is Some
}

/// Whether the pass over an issue on which no card is seen can be decided.
/// An author who attaches directly needs nothing; for the others the
/// escalation must be defined for the time since the clock started.
pub open spec fn no_project_pass_is_defined(
    bot: BotView,
    s: LocalStateView,
    projects: Seq<ProjectEntryView>,
    issue: IssueView,
    now: u64,
) -> bool {
    let since = spec_elapsed_since(s.issue_no_project_ping, now);
    if attaches_directly(projects, issue) {
        true
    } else if author_is_trusted(bot, projects, issue) {
        core_escalation_is_defined(bot, issue, since)
    } else {
        unknown_escalation_is_defined(bot, issue, since)
    }
}

/// Whether the pass over an issue on which a card is seen can be decided.
/// Only a link that awaits confirmation, under a card that the policy
/// judges, asks for anything: then the wait must be defined.
pub open spec fn attached_pass_is_defined(
    bot: BotView,
    s: LocalStateView,
    projects: Seq<ProjectEntryView>,
    issue: IssueView,
    card: AttachedCardView,
    now: u64,
) -> bool {
    match first_named(projects, card.project.name) {
        None => true,
        Some(i) => projects[i].1.is_special(card.actor.login) || match s.issue_project {
            Some(link) => link.state == IssueProjectState::Unconfirmed
                ==> confirmation_wait_is_defined(bot, s, issue, card.project_column, now),
            None => true,
        },
    }
}

/// Whether a pass can be decided: on the path that the pass takes, every
/// interval that is divided by is positive, and a confirmation that is
/// waited for has a window that opened at or before `now`.
pub open spec fn pass_is_defined(
    bot: BotView,
    s: LocalStateView,
    projects: Seq<ProjectEntryView>,
    issue: IssueView,
    card: Option<AttachedCardView>,
    now: u64,
) -> bool {
    issue.id is Some && projects.len() > 0 ==> match card {
        None => no_project_pass_is_defined(bot, s, projects, issue, now),
        Some(card) => attached_pass_is_defined(bot, s, projects, issue, card, now),
    }
}

/// The pass over an issue on which no card is seen.
pub open spec fn handle_no_project(
    bot: BotView,
    s: LocalStateView,
    projects: Seq<ProjectEntryView>,
    issue: IssueView,
    backlog_column: Option<ProjectColumn>,
    now: u64,
) -> Outcome
    recommends
        no_project_pass_is_defined(bot, s, projects, issue, now),
{
    let since = spec_elapsed_since(s.issue_no_project_ping, now);
    if attaches_directly(projects, issue) {
        special_attach_only_project(
            bot,
            s,
            issue,
            projects[0].0->0,
            projects[0].1,
            backlog_column,
        )
    } else if author_is_trusted(bot, projects, issue) {
        author_core_no_project(bot, s, issue, since, now)
    } else {
        author_unknown_no_project(bot, s, issue, since, now)
    }
}

/// The pass over an issue on which a card is seen.
///
/// Nothing happens where no project entry has the name of the card's
/// project, nor where whoever placed the card is special for that project.
/// Otherwise the link on record decides.
pub open spec fn handle_attached(
    bot: BotView,
    s: LocalStateView,
    projects: Seq<ProjectEntryView>,
    issue: IssueView,
    card: AttachedCardView,
    now: u64,
) -> Outcome
    recommends
        attached_pass_is_defined(bot, s, projects, issue, card, now),
{
    match first_named(projects, card.project.name) {
        None => unchanged(s),
        Some(i) => {
            let info = projects[i].1;
            if info.is_special(card.actor.login) {
                unchanged(s)
            } else {
                match s.issue_project {
                    None => project_state_none(
                        bot,
                        s,
                        issue,
                        card.project,
                        card.project_column,
                        info,
                        card.actor,
                        now,
                    ),
                    Some(link) => match link.state {
                        IssueProjectState::Unconfirmed => project_state_unconfirmed(
                            bot,
                            s,
                            issue,
                            card.project,
                            card.project_column,
                            info,
                            card.actor,
                            now,
                        ),
                        IssueProjectState::Denied => project_state_denied(
                            bot,
                            s,
                            issue,
                            card.project,
                            card.project_column,
                            info,
                            card.actor,
                            now,
                        ),
                        IssueProjectState::Confirmed => project_state_confirmed(
                            bot,
                            s,
                            issue,
                            card.project,
                            card.project_column,
                            info,
                            card.actor,
                            now,
                        ),
                    },
                }
            }
        },
    }
}

/// One pass over one issue.
///
/// `card` is the card seen on the issue, if any. `backlog_column` is the
/// backlog column of the repository's only project, if it has one; it
/// matters only where the author attaches directly.
pub open spec fn handle_issue(
    bot: BotView,
    s: LocalStateView,
    projects: Seq<ProjectEntryView>,
    issue: IssueView,
    card: Option<AttachedCardView>,
    backlog_column: Option<ProjectColumn>,
    now: u64,
) -> Outcome
    recommends
        pass_is_defined(bot, s, projects, issue, card, now),
{
    if issue.id is None {
        Err(Error::MissingData)
    } else if projects.len() == 0 {
        unchanged(s)
    } else {
        match card {
            None => handle_no_project(bot, s, projects, issue, backlog_column, now),
            Some(card) => handle_attached(bot, s, projects, issue, card, now),
        }
    }
}

} // verus!
