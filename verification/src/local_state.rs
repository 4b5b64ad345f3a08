//! The automation record kept for each issue between passes.

use vstd::prelude::*;

verus! {

/// How far a link between an issue and a project column has been approved.
#[derive(Clone, Copy, Debug, PartialEq, Eq, Structural)]
pub enum IssueProjectState {
    Confirmed,
    Unconfirmed,
    Denied,
}

/// A link between an issue and a project column, with the login of whoever
/// placed the card.
#[derive(Debug, PartialEq, Eq)]
pub struct IssueProject {
    pub state: IssueProjectState,
    pub actor_login: String,
    pub project_column_id: i64,
}

/// Mathematical model of an [`IssueProject`].
pub struct IssueProjectView {
    pub state: IssueProjectState,
    pub actor_login: Seq<char>,
    pub project_column_id: i64,
}

impl View for IssueProject {
    type V = IssueProjectView;

    open spec fn view(&self) -> IssueProjectView {
        IssueProjectView {
            state: self.state,
            actor_login: self.actor_login@,
            project_column_id: self.project_column_id,
        }
    }
}

impl Clone for IssueProject {
    fn clone(&self) -> (res: Self)
        ensures
            res@ == self@,
    {
        IssueProject {
            state: self.state,
            actor_login: self.actor_login.clone(),
            project_column_id: self.project_column_id,
        }
    }
}

/// The model of an optional link.
pub open spec fn opt_link(p: Option<IssueProject>) -> Option<IssueProjectView> {
    match p {
        Some(p) => Some(p@),
        None => None,
    }
}

/// The record of one issue. Instants are in whole seconds since the epoch.
#[derive(Clone, Debug, PartialEq, Eq)]
pub struct LocalState {
    /// The key under which the record is stored.
    pub key: Vec<u8>,
    /// The link that the policy currently goes by.
    pub issue_project: Option<IssueProject>,
    /// The latest link that was confirmed: where a rejected placement
    /// returns to.
    pub last_confirmed_issue_project: Option<IssueProject>,
    /// When the confirmation window of the current link opened.
    pub issue_confirm_project_ping: Option<u64>,
    /// When the issue was first seen without a project.
    pub issue_no_project_ping: Option<u64>,
    /// The number of escalation reminders sent so far.
    pub issue_no_project_npings: u64,
}

/// Mathematical model of a [`LocalState`].
pub struct LocalStateView {
    pub key: Seq<u8>,
    pub issue_project: Option<IssueProjectView>,
    pub last_confirmed_issue_project: Option<IssueProjectView>,
    pub issue_confirm_project_ping: Option<u64>,
    pub issue_no_project_ping: Option<u64>,
    pub issue_no_project_npings: u64,
}

impl LocalStateView {
    /// The record of an issue that has not been seen before.
    pub open spec fn fresh(key: Seq<u8>) -> LocalStateView {
        LocalStateView {
            key,
            issue_project: None,
            last_confirmed_issue_project: None,
            issue_confirm_project_ping: None,
            issue_no_project_ping: None,
            issue_no_project_npings: 0,
        }
    }

    /// A link that still awaits approval has an open confirmation window,
    /// and the link to return to is a confirmed one.
    pub open spec fn well_formed(self) -> bool {
        &&& self.issue_project matches Some(p) ==> (p.state != IssueProjectState::Confirmed
            ==> self.issue_confirm_project_ping is Some)
        &&& self.last_confirmed_issue_project matches Some(p) ==> p.state
            == IssueProjectState::Confirmed
    }

    /// The confirmation window, where one is open, did not open after `now`.
    pub open spec fn window_opened_by(self, now: u64) -> bool {
        self.issue_confirm_project_ping matches Some(t) ==> t <= now
    }
}

impl View for LocalState {
    type V = LocalStateView;

    open spec fn view(&self) -> LocalStateView {
        LocalStateView {
            key: self.key@,
            issue_project: opt_link(self.issue_project),
            last_confirmed_issue_project: opt_link(self.last_confirmed_issue_project),
            issue_confirm_project_ping: self.issue_confirm_project_ping,
            issue_no_project_ping: self.issue_no_project_ping,
            issue_no_project_npings: self.issue_no_project_npings,
        }
    }
}

impl LocalState {
    /// The key under which the record of an issue is stored: the eight
    /// bytes of the issue's id in two's complement, least significant
    /// first.
    pub fn key_of(issue_id: i64) -> (key: Vec<u8>)
        ensures
            key@ == vstd::bytes::spec_u64_to_le_bytes(issue_id as u64),
            key@.len() == 8,
    {
        vstd::bytes::u64_to_le_bytes(#[verifier::truncate] (issue_id as u64))
    }

    /// The record of an issue that has not been seen before.
    pub fn new(key: Vec<u8>) -> (state: Self)
        ensures
            state@ == LocalStateView::fresh(key@),
            state@.well_formed(),
    {
        LocalState {
            key,
            issue_project: None,
            last_confirmed_issue_project: None,
            issue_confirm_project_ping: None,
            issue_no_project_ping: None,
            issue_no_project_npings: 0,
        }
    }

    /// Whether the record satisfies its invariant and its confirmation
    /// window, where one is open, did not open after `now`.
    pub fn is_usable_at(&self, now: u64) -> (ok: bool)
        ensures
            ok == (self@.well_formed() && self@.window_opened_by(now)),
    {
        let pending_has_window = match &self.issue_project {
            Some(p) => match p.state {
                IssueProjectState::Confirmed => true,
                _ => self.issue_confirm_project_ping.is_some(),
            },
            None => true,
        };
        let target_is_confirmed = match &self.last_confirmed_issue_project {
            Some(p) => match p.state {
                IssueProjectState::Confirmed => true,
                _ => false,
            },
            None => true,
        };
        let window_in_past = match self.issue_confirm_project_ping {
            Some(t) => t <= now,
            None => true,
        };
        pending_has_window && target_is_confirmed && window_in_past
    }

    pub fn issue_project(&self) -> (p: Option<&IssueProject>)
        ensures
            p matches Some(link) ==> self.issue_project == Some(*link),
            p is None <==> self.issue_project is None,
    {
        self.issue_project.as_ref()
    }

    pub fn last_confirmed_issue_project(&self) -> (p: Option<&IssueProject>)
        ensures
            p matches Some(link) ==> self.last_confirmed_issue_project == Some(*link),
            p is None <==> self.last_confirmed_issue_project is None,
    {
        self.last_confirmed_issue_project.as_ref()
    }

    pub fn issue_confirm_project_ping(&self) -> (t: Option<u64>)
        ensures
            t == self.issue_confirm_project_ping,
    {
        self.issue_confirm_project_ping
    }

    pub fn issue_no_project_ping(&self) -> (t: Option<u64>)
        ensures
            t == self.issue_no_project_ping,
    {
        self.issue_no_project_ping
    }

    pub fn issue_no_project_npings(&self) -> (n: u64)
        ensures
            n == self.issue_no_project_npings,
    {
        self.issue_no_project_npings
    }

    /// Replaces the current link and leaves the rest of the record alone.
    pub fn update_issue_project(&mut self, project: Option<IssueProject>)
        ensures
            final(self)@ == (LocalStateView { issue_project: opt_link(project), ..old(self)@ }),
    {
        self.issue_project = project;
    }

    /// Replaces the link to return to and leaves the rest of the record
    /// alone.
    pub fn update_last_confirmed_issue_project(&mut self, project: Option<IssueProject>)
        ensures
            final(self)@ == (LocalStateView {
                last_confirmed_issue_project: opt_link(project),
                ..old(self)@
            }),
    {
        self.last_confirmed_issue_project = project;
    }

    /// Opens, restarts or closes the confirmation window.
    pub fn update_issue_confirm_project_ping(&mut self, ping: Option<u64>)
        ensures
            final(self)@ == (LocalStateView { issue_confirm_project_ping: ping, ..old(self)@ }),
    {
        self.issue_confirm_project_ping = ping;
    }

    /// Starts or stops the clock for an issue without a project.
    pub fn update_issue_no_project_ping(&mut self, ping: Option<u64>)
        ensures
            final(self)@ == (LocalStateView { issue_no_project_ping: ping, ..old(self)@ }),
    {
        self.issue_no_project_ping = ping;
    }

    /// Records the number of escalation reminders sent so far.
    pub fn update_issue_no_project_npings(&mut self, npings: u64)
        ensures
            final(self)@ == (LocalStateView { issue_no_project_npings: npings, ..old(self)@ }),
    {
        self.issue_no_project_npings = npings;
    }

    /// Ends the lifecycle of the record: what remains is the record of an
    /// issue that has not been seen before, under the same key.
    pub fn delete(&mut self)
        ensures
            final(self)@ == LocalStateView::fresh(old(self)@.key),
            final(self)@.well_formed(),
    {
        self.issue_project = None;
        self.last_confirmed_issue_project = None;
        self.issue_confirm_project_ping = None;
        self.issue_no_project_ping = None;
        self.issue_no_project_npings = 0;
    }
}

} // verus!
