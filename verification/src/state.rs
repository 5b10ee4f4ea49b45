//! The persistent records of the arena and the errors its calls report.

use vstd::prelude::*;

verus! {

/// The arena's single controlling record.
#[derive(Clone, Copy, Debug, PartialEq, Eq)]
pub struct Arena {
    /// Address of the agent, the only one who may submit moves.
    pub authority: [u8; 32],
    /// Number of the round that is open.
    pub round: u64,
    /// Settled rounds that went to the agent's side.
    pub agent_wins: u64,
    /// Settled rounds that went to the crowd's side.
    pub crowd_wins: u64,
    /// Bump seed of the record's own address.
    pub bump: u8,
}

/// The escrow record of one round.
#[derive(Clone, Copy, Debug, PartialEq, Eq)]
pub struct RoundState {
    /// Sum of the stakes placed on the agent's side.
    pub agent_lamports: u64,
    /// Sum of the stakes placed on the crowd's side.
    pub crowd_lamports: u64,
    /// Whether the round's escrow has been swept to the treasury.
    pub resolved: bool,
}

/// Why a call was turned away.
#[derive(Clone, Copy, Debug, PartialEq, Eq, Structural)]
pub enum ArenaError {
    /// A move was submitted by someone other than the registered agent.
    NotAgent,
    /// A stake named a side other than 0 (agent) or 1 (crowd).
    InvalidSide,
    /// The call does not fit the round that is open.
    WrongRound,
}

impl RoundState {
    /// The record of a round nobody has staked on.
    pub open spec fn fresh() -> RoundState {
        RoundState { agent_lamports: 0, crowd_lamports: 0, resolved: false }
    }

    /// Everything staked on the round, both sides together.
    pub open spec fn total(self) -> nat {
        (self.agent_lamports + self.crowd_lamports) as nat
    }

    /// Whether closing the round sweeps its escrow: something was staked and
    /// the sweep has not happened yet.
    pub open spec fn awaits_settlement(self) -> bool {
        self.total() > 0 && !self.resolved
    }
}

/// Whether two addresses are the same, byte for byte.
pub fn keys_equal(a: &[u8; 32], b: &[u8; 32]) -> (same: bool)
    ensures
        same == (a@ == b@),
{
    let mut i: usize = 0;
    while i < 32
        invariant
            i <= 32,
            forall|j: int| 0 <= j < i ==> a@[j] == b@[j],
        decreases 32 - i,
    {
        if a[i] != b[i] {
            return false;
        }
        i += 1;
    }
    assert(a@ =~= b@);
    true
}

} // verus!
