//! The wording of the notices that the policy sends.

use crate::decimal::{decimal_int, decimal_nat, i64_to_string, u64_to_string};
use vstd::prelude::*;
use vstd::string::StringExecFns;

verus! {

/// Reminder that an issue without a project will be closed.
pub open spec fn will_close_for_no_project_text(author: Seq<char>, issue_url: Seq<char>) -> Seq<
    char,
> {
    "@"@ + author + ", "@ + issue_url + " will be closed if it is not attached to a project."@
}

/// Request to confirm the placement of an issue in a project column.
pub open spec fn project_confirmation_text(
    issue_url: Seq<char>,
    project_url: Seq<char>,
    issue_id: i64,
    column_id: i64,
    seconds: u64,
) -> Seq<char> {
    issue_url + " has been attached to column "@ + decimal_int(column_id as int)
        + " of the project "@ + project_url
        + " by a user who needs confirmation. To keep it there, confirm issue "@ + decimal_int(
        issue_id as int,
    ) + " for column "@ + decimal_int(column_id as int) + " within "@ + decimal_nat(seconds as nat)
        + " seconds."@
}

/// Request to give a project a backlog column.
pub open spec fn project_needs_backlog_text(owner: Seq<char>, project_url: Seq<char>) -> Seq<
    char,
> {
    owner + ", "@ + project_url + " needs a backlog column."@
}

/// Notice to a user that their card placement was undone.
pub open spec fn issue_revert_project_notification_text(issue_url: Seq<char>) -> Seq<char> {
    "The project change you made to "@ + issue_url
        + " has been denied or gone unconfirmed for too long, and so has been reverted. Changes require confirmation from the project owner or a whitelisted developer."@
}

pub fn will_close_for_no_project(author: &str, issue_url: &str) -> (msg: String)
    ensures
        msg@ == will_close_for_no_project_text(author@, issue_url@),
{
    let mut msg = String::from_str("@");
    msg.append(author);
    msg.append(", ");
    msg.append(issue_url);
    msg.append(" will be closed if it is not attached to a project.");
    msg
}

pub fn project_confirmation(
    issue_url: &str,
    project_url: &str,
    issue_id: i64,
    column_id: i64,
    seconds: u64,
) -> (msg: String)
    ensures
        msg@ == project_confirmation_text(issue_url@, project_url@, issue_id, column_id, seconds),
{
    let column = i64_to_string(column_id);
    let issue = i64_to_string(issue_id);
    let timeout = u64_to_string(seconds);
    let mut msg = String::from_str(issue_url);
    msg.append(" has been attached to column ");
    msg.append(column.as_str());
    msg.append(" of the project ");
    msg.append(project_url);
    msg.append(" by a user who needs confirmation. To keep it there, confirm issue ");
    msg.append(issue.as_str());
    msg.append(" for column ");
    msg.append(column.as_str());
    msg.append(" within ");
    msg.append(timeout.as_str());
    msg.append(" seconds.");
    msg
}

pub fn project_needs_backlog(owner: &str, project_url: &str) -> (msg: String)
    ensures
        msg@ == project_needs_backlog_text(owner@, project_url@),
{
    let mut msg = String::from_str(owner);
    msg.append(", ");
    msg.append(project_url);
    msg.append(" needs a backlog column.");
    msg
}

pub fn issue_revert_project_notification(issue_url: &str) -> (msg: String)
    ensures
        msg@ == issue_revert_project_notification_text(issue_url@),
{
    let mut msg = String::from_str("The project change you made to ");
    msg.append(issue_url);
    msg.append(
        " has been denied or gone unconfirmed for too long, and so has been reverted. Changes require confirmation from the project owner or a whitelisted developer.",
    );
    msg
}

} // verus!
