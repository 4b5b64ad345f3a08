//! The side effects that a pass over an issue asks for.

use crate::matrix_bot::{RoomMessage, RoomMessageView};
use vstd::prelude::*;

verus! {

/// One side effect. The caller carries out the actions of a pass in the
/// order in which they are listed, and stops at the first that fails.
#[derive(Clone, Debug, PartialEq, Eq)]
pub enum Action {
    /// Write the automation record, as the pass left it, to the store.
    SaveState,
    /// Remove the automation record from the store.
    DeleteState,
    /// Post a message to a chat room.
    SendToRoom(RoomMessage),
    /// Send a message to one chat user.
    SendPrivateMessage { user_id: String, msg: String },
    /// Put a card for the issue into a project column.
    CreateProjectCard { project_column_id: i64, issue_id: i64 },
    /// Take the card of the issue out of a project column.
    DeleteProjectCard { project_column_id: i64 },
    /// Close the issue in its repository.
    CloseIssue { repo_name: String, issue_number: i64 },
    /// Open an issue in a repository.
    CreateIssue { repo_name: String, title: String, body: String, assignee: String },
}

/// Mathematical model of an [`Action`].
pub enum ActionView {
    SaveState,
    DeleteState,
    SendToRoom(RoomMessageView),
    SendPrivateMessage { user_id: Seq<char>, msg: Seq<char> },
    CreateProjectCard { project_column_id: i64, issue_id: i64 },
    DeleteProjectCard { project_column_id: i64 },
    CloseIssue { repo_name: Seq<char>, issue_number: i64 },
    CreateIssue { repo_name: Seq<char>, title: Seq<char>, body: Seq<char>, assignee: Seq<char> },
}

impl View for Action {
    type V = ActionView;

    open spec fn view(&self) -> ActionView {
        match *self {
            Action::SaveState => ActionView::SaveState,
            Action::DeleteState => ActionView::DeleteState,
            Action::SendToRoom(m) => ActionView::SendToRoom(m@),
            Action::SendPrivateMessage { user_id, msg } => ActionView::SendPrivateMessage {
                user_id: user_id@,
                msg: msg@,
            },
            Action::CreateProjectCard { project_column_id, issue_id } => {
                ActionView::CreateProjectCard { project_column_id, issue_id }
            },
            Action::DeleteProjectCard { project_column_id } => ActionView::DeleteProjectCard {
                project_column_id,
            },
            Action::CloseIssue { repo_name, issue_number } => ActionView::CloseIssue {
                repo_name: repo_name@,
                issue_number,
            },
            Action::CreateIssue { repo_name, title, body, assignee } => ActionView::CreateIssue {
                repo_name: repo_name@,
                title: title@,
                body: body@,
                assignee: assignee@,
            },
        }
    }
}

/// The models of a list of actions, in the same order.
pub open spec fn actions_view(actions: Seq<Action>) -> Seq<ActionView> {
    actions.map_values(|a: Action| a@)
}

/// Appends one action to a list.
pub fn push_action(actions: &mut Vec<Action>, action: Action)
    ensures
        actions_view(final(actions)@) == actions_view(old(actions)@).push(action@),
{
    actions.push(action);
    assert(actions_view(actions@) =~= actions_view(old(actions)@).push(action@));
}

/// A list without actions.
pub fn no_actions() -> (actions: Vec<Action>)
    ensures
        actions_view(actions@) == Seq::<ActionView>::empty(),
{
    let actions = Vec::new();
    assert(actions_view(actions@) =~= Seq::<ActionView>::empty());
    actions
}

} // verus!
