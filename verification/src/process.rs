//! Per-project process metadata: who may act without confirmation, where
//! notices go, and which column takes new issues.

use vstd::prelude::*;

verus! {

/// The process settings of one project.
#[derive(Clone, Debug, PartialEq, Eq)]
pub struct ProcessInfo {
    pub project_name: String,
    pub owner: String,
    pub delegate: Option<String>,
    pub whitelist: Vec<String>,
    pub matrix_room_id: String,
    pub backlog: Option<String>,
}

/// Mathematical model of a [`ProcessInfo`].
pub struct ProcessInfoView {
    pub project_name: Seq<char>,
    pub owner: Seq<char>,
    pub delegate: Option<Seq<char>>,
    pub whitelist: Seq<Seq<char>>,
    pub matrix_room_id: Seq<char>,
    pub backlog: Option<Seq<char>>,
}

impl ProcessInfoView {
    /// A login is special for the project when it is the owner, the delegate,
    /// or listed on the whitelist.
    pub open spec fn is_special(self, login: Seq<char>) -> bool {
        ||| self.owner == login
        ||| self.delegate == Some(login)
        ||| self.whitelist.contains(login)
    }

    /// The delegate where one is set, else the owner.
    pub open spec fn owner_or_delegate(self) -> Seq<char> {
        match self.delegate {
            Some(d) => d,
            None => self.owner,
        }
    }
}

impl View for ProcessInfo {
    type V = ProcessInfoView;

    open spec fn view(&self) -> ProcessInfoView {
        ProcessInfoView {
            project_name: self.project_name@,
            owner: self.owner@,
            delegate: crate::github::opt_chars(self.delegate),
            whitelist: self.whitelist@.map_values(|s: String| s@),
            matrix_room_id: self.matrix_room_id@,
            backlog: crate::github::opt_chars(self.backlog),
        }
    }
}

impl ProcessInfo {
    /// The login to address about the project: the delegate where
    /// one is set, else the owner.
    pub fn owner_or_delegate(&self) -> (who: &String)
        ensures
            who@ == self@.owner_or_delegate(),
    {
        match &self.delegate {
            Some(d) => d,
            None => &self.owner,
        }
    }

    /// Whether `login` is on the whitelist of the project.
    pub fn is_whitelisted(&self, login: &String) -> (found: bool)
        ensures
            found == self@.whitelist.contains(login@),
    {
        let mut i: usize = 0;
        while i < self.whitelist.len()
            invariant
                i <= self.whitelist.len(),
                forall|j: int| 0 <= j < i ==> self@.whitelist[j] != login@,
            decreases self.whitelist.len() - i,
        {
            if self.whitelist[i] == *login {
                assert(self@.whitelist[i as int] == login@);
                return true;
            }
            i = i + 1;
        }
        false
    }

    /// Whether `login` may place cards of the project without confirmation.
    pub fn is_special(&self, login: &String) -> (special: bool)
        ensures
            special == self@.is_special(login@),
    {
        if self.owner == *login {
            return true;
        }
        let delegated = match &self.delegate {
            Some(d) => *d == *login,
            None => false,
        };
        delegated || self.is_whitelisted(login)
    }
}

} // verus!
