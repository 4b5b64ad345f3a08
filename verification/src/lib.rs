//! Triage policy for issues on project boards.
//!
//! Every issue is to be linked to a column of a project board. Users who are
//! special for a project may place its cards freely; a card placed by anyone
//! else waits for confirmation and is undone when none comes. An issue with
//! no card at all is escalated by reminders and in the end moved to a
//! repository for unsorted issues.
//!
//! The crate decides, for one issue and one polling pass, how the automation
//! record of the issue changes and which side effects are due. It performs no
//! input or output itself: the caller supplies what was observed and the
//! clock reading, and carries out the returned actions in order.
//!
//! - [`duration_ticks`] turns an elapsed span into a count of intervals.
//! - [`local_state`] is the automation record of an issue.
//! - [`github`], [`process`], [`config`] and [`bots`] hold what a pass is
//!   told about the platform, the projects and the users.
//! - [`policy`] is the policy as a mathematical function, [`issue`] its
//!   executable form, and [`laws`] what holds of every pass.
//! - [`action`], [`constants`] and [`decimal`] describe the side effects and
//!   word the notices.
//! - [`matrix_bot`] and [`github_bot`] build the requests for the chat
//!   service and the platform.

pub mod action;
pub mod bots;
pub mod config;
pub mod constants;
pub mod decimal;
pub mod duration_ticks;
pub mod error;
pub mod github;
pub mod github_bot;
pub mod issue;
pub mod laws;
pub mod local_state;
pub mod matrix_bot;
pub mod policy;
pub mod process;
pub mod search;
