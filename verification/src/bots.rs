//! The policy's standing knowledge: settings, trusted users, and how logins
//! map to chat identities.

use crate::config::{BotConfig, BotConfigView};
use crate::github::{User, UserView};
use crate::matrix_bot::{MatrixBot, MatrixBotView};
use crate::search::{first_from, first_where, lemma_first_from_skips};
use vstd::prelude::*;

verus! {

/// The chat identity of one code-hosting login.
#[derive(Clone, Debug, PartialEq, Eq)]
pub struct ChatIdentity {
    pub github_login: String,
    pub matrix_id: String,
}

/// Mathematical model of a [`ChatIdentity`].
pub struct ChatIdentityView {
    pub github_login: Seq<char>,
    pub matrix_id: Seq<char>,
}

impl View for ChatIdentity {
    type V = ChatIdentityView;

    open spec fn view(&self) -> ChatIdentityView {
        ChatIdentityView { github_login: self.github_login@, matrix_id: self.matrix_id@ }
    }
}

/// A snapshot of what the policy knows beyond the issue at hand.
#[derive(Clone, Debug, PartialEq, Eq)]
pub struct Bot {
    pub config: BotConfig,
    /// The users trusted across all repositories.
    pub core_devs: Vec<User>,
    /// The known chat identities. Where a login occurs twice, the first
    /// entry counts.
    pub github_to_matrix: Vec<ChatIdentity>,
    pub matrix_bot: MatrixBot,
}

/// Mathematical model of a [`Bot`].
pub struct BotView {
    pub config: BotConfigView,
    pub core_devs: Seq<UserView>,
    pub github_to_matrix: Seq<ChatIdentityView>,
    pub matrix_bot: MatrixBotView,
}

impl BotView {
    /// Whether the user with this id is trusted across all repositories.
    pub open spec fn is_core(self, user_id: i64) -> bool {
        exists|i: int| 0 <= i < self.core_devs.len() && (#[trigger] self.core_devs[i]).id == user_id
    }

    /// The chat identity on record for a login.
    pub open spec fn matrix_id_of(self, login: Seq<char>) -> Option<Seq<char>> {
        match first_where(
            self.github_to_matrix,
            |e: ChatIdentityView| e.github_login == login,
        ) {
            Some(i) => Some(self.github_to_matrix[i].matrix_id),
            None => None,
        }
    }
}

impl View for Bot {
    type V = BotView;

    open spec fn view(&self) -> BotView {
        BotView {
            config: self.config@,
            core_devs: self.core_devs@.map_values(|u: User| u@),
            github_to_matrix: self.github_to_matrix@.map_values(|e: ChatIdentity| e@),
            matrix_bot: self.matrix_bot@,
        }
    }
}

impl Bot {
    /// Whether the user is trusted across all repositories.
    pub fn is_core_dev(&self, user: &User) -> (core: bool)
        ensures
            core == self@.is_core(user.id),
    {
        let mut i: usize = 0;
        while i < self.core_devs.len()
            invariant
                i <= self.core_devs.len(),
                forall|j: int| 0 <= j < i ==> (#[trigger] self@.core_devs[j]).id != user.id,
            decreases self.core_devs.len() - i,
        {
            if self.core_devs[i].id == user.id {
                assert(self@.core_devs[i as int].id == user.id);
                return true;
            }
            i = i + 1;
        }
        false
    }

    /// Looks up the chat identity of a login.
    pub fn matrix_id_of(&self, login: &String) -> (id: Option<&String>)
        ensures
            match id {
                Some(m) => self@.matrix_id_of(login@) == Some(m@),
                None => self@.matrix_id_of(login@) is None,
            },
    {
        let ghost pred = |e: ChatIdentityView| e.github_login == login@;
        let mut i: usize = 0;
        while i < self.github_to_matrix.len()
            invariant
                i <= self.github_to_matrix.len(),
                pred == (|e: ChatIdentityView| e.github_login == login@),
                forall|j: int| 0 <= j < i ==> !pred(#[trigger] self@.github_to_matrix[j]),
            decreases self.github_to_matrix.len() - i,
        {
            if self.github_to_matrix[i].github_login == *login {
                proof {
                    lemma_first_from_skips(self@.github_to_matrix, pred, 0, i as int);
                    assert(pred(self@.github_to_matrix[i as int]));
                    assert(first_from(self@.github_to_matrix, pred, i as int) == Some(i as int));
                }
                return Some(&self.github_to_matrix[i].matrix_id);
            }
            i = i + 1;
        }
        proof {
            lemma_first_from_skips(self@.github_to_matrix, pred, 0, i as int);
        }
        None
    }
}

} // verus!
