//! Global settings of the triage policy.

use vstd::prelude::*;

verus! {

/// Durations are in whole seconds.
#[derive(Clone, Debug, PartialEq, Eq)]
pub struct BotConfig {
    /// How long an unconfirmed card placement may wait for confirmation.
    pub project_confirmation_timeout: u64,
    /// Interval between reminders for a trusted author's issue without a
    /// project.
    pub no_project_author_is_core_ping: u64,
    /// Span after which a trusted author's issue without a project is moved
    /// away.
    pub no_project_author_is_core_close_pr: u64,
    /// Span after which any other author's issue without a project is moved
    /// away.
    pub no_project_author_not_core_close_pr: u64,
    /// Name of the backlog column for projects that configure none.
    pub project_backlog_column_name: String,
    /// Repository that takes issues moved away for lack of a project.
    pub core_sorting_repo_name: String,
}

/// Mathematical model of a [`BotConfig`].
pub struct BotConfigView {
    pub project_confirmation_timeout: u64,
    pub no_project_author_is_core_ping: u64,
    pub no_project_author_is_core_close_pr: u64,
    pub no_project_author_not_core_close_pr: u64,
    pub project_backlog_column_name: Seq<char>,
    pub core_sorting_repo_name: Seq<char>,
}

impl BotConfigView {
    /// Every duration that serves as an interval is positive.
    pub open spec fn well_formed(self) -> bool {
        &&& self.project_confirmation_timeout > 0
        &&& self.no_project_author_is_core_ping > 0
        &&& self.no_project_author_not_core_close_pr > 0
    }
}

impl View for BotConfig {
    type V = BotConfigView;

    open spec fn view(&self) -> BotConfigView {
        BotConfigView {
            project_confirmation_timeout: self.project_confirmation_timeout,
            no_project_author_is_core_ping: self.no_project_author_is_core_ping,
            no_project_author_is_core_close_pr: self.no_project_author_is_core_close_pr,
            no_project_author_not_core_close_pr: self.no_project_author_not_core_close_pr,
            project_backlog_column_name: self.project_backlog_column_name@,
            core_sorting_repo_name: self.core_sorting_repo_name@,
        }
    }
}

impl BotConfig {
    /// Whether every duration that serves as an interval is positive.
    pub fn is_well_formed(&self) -> (ok: bool)
        ensures
            ok == self@.well_formed(),
    {
        self.project_confirmation_timeout > 0 && self.no_project_author_is_core_ping > 0
            && self.no_project_author_not_core_close_pr > 0
    }
}

} // verus!
