//! What holds of every pass of the triage policy.

use crate::action::ActionView;
use crate::bots::BotView;
use crate::duration_ticks::{lemma_floor_bounds, spec_elapsed_since, spec_ticks};
use crate::github::{IssueView, ProjectColumn};
use crate::local_state::{IssueProjectState, LocalStateView};
use crate::policy::{
    actions_of, attaches_directly, author_is_trusted, core_close_threshold, first_named,
    confirmed_matches_last, handle_issue, reverted, state_after, unchanged, AttachedCardView,
    ProjectEntryView,
};
use vstd::prelude::*;

verus! {

/// A pass keeps the record well-formed, and leaves no confirmation window
/// that opened after the clock reading of the pass.
pub proof fn lemma_pass_keeps_record_well_formed(
    bot: BotView,
    s: LocalStateView,
    projects: Seq<ProjectEntryView>,
    issue: IssueView,
    card: Option<AttachedCardView>,
    backlog_column: Option<ProjectColumn>,
    now: u64,
)
    ensures
        s.well_formed() ==> state_after(
            s,
            handle_issue(bot, s, projects, issue, card, backlog_column, now),
        ).well_formed(),
        s.window_opened_by(now) ==> state_after(
            s,
            handle_issue(bot, s, projects, issue, card, backlog_column, now),
        ).window_opened_by(now),
{
}

/// A card placed by a user who is special for its project is never touched:
/// whatever the record holds, the pass changes nothing in it and asks for no
/// action.
pub proof fn lemma_special_actor_is_left_alone(
    bot: BotView,
    s: LocalStateView,
    projects: Seq<ProjectEntryView>,
    issue: IssueView,
    card: AttachedCardView,
    backlog_column: Option<ProjectColumn>,
    now: u64,
)
    requires
        first_named(projects, card.project.name) matches Some(i) && projects[i].1.is_special(
            card.actor.login,
        ),
    ensures
        state_after(s, handle_issue(bot, s, projects, issue, Some(card), backlog_column, now)) == s,
        actions_of(handle_issue(bot, s, projects, issue, Some(card), backlog_column, now))
            == Seq::<ActionView>::empty(),
{
}

/// Whether a pass reaches the link on record: the issue has its id and its
/// address, its card is in a project that has an entry, and whoever placed
/// the card is not special for that project.
pub open spec fn placement_is_judged(
    projects: Seq<ProjectEntryView>,
    issue: IssueView,
    card: AttachedCardView,
) -> bool {
    &&& issue.id is Some
    &&& issue.html_url is Some
    &&& first_named(projects, card.project.name) matches Some(i) && !projects[i].1.is_special(
        card.actor.login,
    )
}

/// A card that is seen again in the column for which it was denied is
/// undone by the very next pass, whatever the clock reads: the record
/// returns to the last confirmed link.
pub proof fn lemma_denied_recurrence_reverts_at_once(
    bot: BotView,
    s: LocalStateView,
    projects: Seq<ProjectEntryView>,
    issue: IssueView,
    card: AttachedCardView,
    backlog_column: Option<ProjectColumn>,
    now: u64,
)
    requires
        placement_is_judged(projects, issue, card),
        s.issue_project matches Some(link) && link.state == IssueProjectState::Denied
            && link.project_column_id == card.project_column.id,
    ensures
        handle_issue(bot, s, projects, issue, Some(card), backlog_column, now) is Ok,
        state_after(s, handle_issue(bot, s, projects, issue, Some(card), backlog_column, now))
            == reverted(s),
{
    crate::search::lemma_first_from_is_first(
        projects,
        |e: ProjectEntryView| e.0 matches Some(p) && p.name == card.project.name,
        0,
    );
}

/// A card that is seen again in the column for which it awaits confirmation
/// is left alone until one full confirmation timeout has passed since its
/// window opened, and is undone by any pass from then on.
pub proof fn lemma_unconfirmed_recurrence_waits(
    bot: BotView,
    s: LocalStateView,
    projects: Seq<ProjectEntryView>,
    issue: IssueView,
    card: AttachedCardView,
    backlog_column: Option<ProjectColumn>,
    opened: u64,
    now: u64,
)
    requires
        bot.config.project_confirmation_timeout > 0,
        placement_is_judged(projects, issue, card),
        s.issue_project matches Some(link) && link.state == IssueProjectState::Unconfirmed
            && link.project_column_id == card.project_column.id,
        s.issue_confirm_project_ping == Some(opened),
        opened <= now,
    ensures
        now - opened < bot.config.project_confirmation_timeout ==> handle_issue(
            bot,
            s,
            projects,
            issue,
            Some(card),
            backlog_column,
            now,
        ) == unchanged(s),
        now - opened >= bot.config.project_confirmation_timeout ==> handle_issue(
            bot,
            s,
            projects,
            issue,
            Some(card),
            backlog_column,
            now,
        ) is Ok && state_after(
            s,
            handle_issue(bot, s, projects, issue, Some(card), backlog_column, now),
        ) == reverted(s),
{
    crate::search::lemma_first_from_is_first(
        projects,
        |e: ProjectEntryView| e.0 matches Some(p) && p.name == card.project.name,
        0,
    );
    lemma_floor_bounds((now - opened) as u64, bot.config.project_confirmation_timeout);
}

/// The passes that repeat their side effects when they are run again on
/// the same observation. There are two kinds, both for an issue on which no
/// card is seen. An author who attaches directly does so on every pass,
/// since the pass does not consult the record. And between the first
/// reminder interval and the closing threshold every pass reminds a trusted
/// author anew.
pub open spec fn pass_repeats_itself(
    bot: BotView,
    s: LocalStateView,
    projects: Seq<ProjectEntryView>,
    issue: IssueView,
    card: Option<AttachedCardView>,
    backlog_column: Option<ProjectColumn>,
    now: u64,
) -> bool {
    &&& card is None
    &&& projects.len() > 0
    &&& issue.id is Some
    &&& if attaches_directly(projects, issue) {
        backlog_column is Some || projects[0].0->0.html_url is Some
    } else {
        &&& author_is_trusted(bot, projects, issue)
        &&& issue.html_url is Some
        &&& spec_ticks(
            spec_elapsed_since(s.issue_no_project_ping, now),
            bot.config.no_project_author_is_core_ping,
        ) matches Some(i) && 1 <= i < core_close_threshold(bot)
    }
}

/// Whether an action may occur in a second pass over the same observation:
/// it creates no card, closes no issue, opens no issue, and posts no room
/// message that the first pass posted.
pub open spec fn allowed_in_second_pass(action: ActionView, first: Seq<ActionView>) -> bool {
    &&& !(action is CreateProjectCard)
    &&& !(action is CloseIssue)
    &&& !(action is CreateIssue)
    &&& action is SendToRoom ==> !first.contains(action)
}

/// Running a pass twice is harmless. When a second pass starts from the
/// record that the first pass left, with the same observation and the same
/// clock reading, it creates no card, closes and opens no issue, and posts
/// no room message that the first pass posted. The passes that repeat
/// themselves by design are left out.
pub proof fn lemma_second_pass_adds_nothing(
    bot: BotView,
    s: LocalStateView,
    projects: Seq<ProjectEntryView>,
    issue: IssueView,
    card: Option<AttachedCardView>,
    backlog_column: Option<ProjectColumn>,
    now: u64,
)
    requires
        bot.config.well_formed(),
        s.well_formed(),
        s.window_opened_by(now),
        !pass_repeats_itself(bot, s, projects, issue, card, backlog_column, now),
    ensures
        ({
            let first = handle_issue(bot, s, projects, issue, card, backlog_column, now);
            let second = handle_issue(
                bot,
                state_after(s, first),
                projects,
                issue,
                card,
                backlog_column,
                now,
            );
            forall|k: int|
                0 <= k < actions_of(second).len() ==> allowed_in_second_pass(
                    #[trigger] actions_of(second)[k],
                    actions_of(first),
                )
        }),
{
    let first = handle_issue(bot, s, projects, issue, card, backlog_column, now);
    let s1 = state_after(s, first);
    let second = handle_issue(bot, s1, projects, issue, card, backlog_column, now);
    lemma_floor_bounds(0, bot.config.project_confirmation_timeout);
    lemma_floor_bounds(0, bot.config.no_project_author_is_core_ping);
    lemma_floor_bounds(0, bot.config.no_project_author_not_core_close_pr);
    assert forall|k: int| 0 <= k < actions_of(second).len() implies allowed_in_second_pass(
        #[trigger] actions_of(second)[k],
        actions_of(first),
    ) by {
        let a = actions_of(second)[k];
        if a is SendToRoom && actions_of(first).contains(a) {
            let j = choose|j: int| 0 <= j < actions_of(first).len() && actions_of(first)[j] == a;
            assert(actions_of(first)[j] is SendToRoom);
        }
    }
}

/// The passes left out above do repeat themselves: where such a pass is
/// decided at all, a second pass on the same observation asks again for a
/// card, or posts again a room message of the first pass.
pub proof fn lemma_repeating_pass_repeats(
    bot: BotView,
    s: LocalStateView,
    projects: Seq<ProjectEntryView>,
    issue: IssueView,
    card: Option<AttachedCardView>,
    backlog_column: Option<ProjectColumn>,
    now: u64,
)
    requires
        pass_repeats_itself(bot, s, projects, issue, card, backlog_column, now),
    ensures
        ({
            let first = handle_issue(bot, s, projects, issue, card, backlog_column, now);
            let second = handle_issue(
                bot,
                state_after(s, first),
                projects,
                issue,
                card,
                backlog_column,
                now,
            );
            exists|k: int|
                0 <= k < actions_of(second).len() && !allowed_in_second_pass(
                    #[trigger] actions_of(second)[k],
                    actions_of(first),
                )
        }),
{
    let first = handle_issue(bot, s, projects, issue, card, backlog_column, now);
    let second = handle_issue(
        bot,
        state_after(s, first),
        projects,
        issue,
        card,
        backlog_column,
        now,
    );
    assert(actions_of(second) == actions_of(first));
    if attaches_directly(projects, issue) && backlog_column is None {
        assert(actions_of(first)[0] is SendToRoom);
        assert(actions_of(first).contains(actions_of(second)[0]));
        assert(!allowed_in_second_pass(actions_of(second)[0], actions_of(first)));
    } else {
        assert(actions_of(first).contains(actions_of(second)[1]));
        assert(!allowed_in_second_pass(actions_of(second)[1], actions_of(first)));
    }
}

/// The link to return to is never lost while the issue is tracked. A pass
/// either moves the issue away, which starts the record anew, or keeps the
/// link to return to, or replaces it by the confirmed link on record, and
/// that only where the two differ or there was none.
pub proof fn lemma_rollback_target_is_kept(
    bot: BotView,
    s: LocalStateView,
    projects: Seq<ProjectEntryView>,
    issue: IssueView,
    card: Option<AttachedCardView>,
    backlog_column: Option<ProjectColumn>,
    now: u64,
)
    ensures
        ({
            let after = state_after(
                s,
                handle_issue(bot, s, projects, issue, card, backlog_column, now),
            );
            ||| after == LocalStateView::fresh(s.key)
            ||| after.last_confirmed_issue_project == s.last_confirmed_issue_project
            ||| {
                &&& s.issue_project matches Some(link)
                &&& link.state == IssueProjectState::Confirmed
                &&& !confirmed_matches_last(s)
                &&& after.last_confirmed_issue_project == Some(link)
            }
        }),
{
}

/// A pass never changes the key of the record, and it asks for the record
/// to be removed from the store exactly when it moves the issue away, as
/// the last action.
pub proof fn lemma_record_is_removed_only_on_relocation(
    bot: BotView,
    s: LocalStateView,
    projects: Seq<ProjectEntryView>,
    issue: IssueView,
    card: Option<AttachedCardView>,
    backlog_column: Option<ProjectColumn>,
    now: u64,
)
    ensures
        ({
            let outcome = handle_issue(bot, s, projects, issue, card, backlog_column, now);
            let actions = actions_of(outcome);
            &&& state_after(s, outcome).key == s.key
            &&& actions.contains(ActionView::DeleteState) ==> {
                &&& actions.len() == 3
                &&& actions[0] is CloseIssue
                &&& actions[1] is CreateIssue
                &&& actions[2] is DeleteState
                &&& state_after(s, outcome) == LocalStateView::fresh(s.key)
            }
            &&& (exists|k: int| 0 <= k < actions.len() && (#[trigger] actions[k]) is CloseIssue)
                ==> actions.contains(ActionView::DeleteState)
        }),
{
    let outcome = handle_issue(bot, s, projects, issue, card, backlog_column, now);
    let actions = actions_of(outcome);
    if actions.contains(ActionView::DeleteState) {
        let j = choose|j: int| 0 <= j < actions.len() && actions[j] == ActionView::DeleteState;
        assert(actions[j] is DeleteState);
    }
    if exists|k: int| 0 <= k < actions.len() && (#[trigger] actions[k]) is CloseIssue {
        let k = choose|k: int| 0 <= k < actions.len() && (#[trigger] actions[k]) is CloseIssue;
        assert(actions[k] is CloseIssue);
        assert(actions[2] == ActionView::DeleteState);
    }
}

} // verus!
