//! What each call is handed: the records it may read and change, and the
//! plain facts about the accounts around them that its rules depend on.

use crate::state::{Arena, RoundState};
use vstd::prelude::*;

verus! {

/// What initialisation is handed.
#[derive(Clone, Copy, Debug, PartialEq, Eq)]
pub struct InitArena {
    /// Address of the arena program, which owns the accounts it creates.
    pub program_id: [u8; 32],
    /// The arena's record, to be filled in.
    pub arena: Arena,
    /// Bump seed of the arena record's address.
    pub arena_bump: u8,
    /// Bump seed of the treasury's address.
    pub agent_treasury_bump: u8,
}

/// What the first move is handed.
#[derive(Clone, Copy, Debug, PartialEq, Eq)]
pub struct SubmitMoveFirst {
    /// The arena's record.
    pub arena: Arena,
    /// Address of whoever signed the call.
    pub agent_signer: [u8; 32],
}

/// What a move after the first is handed.
#[derive(Clone, Copy, Debug, PartialEq, Eq)]
pub struct SubmitMove {
    /// Address of the arena program.
    pub program_id: [u8; 32],
    /// The arena's record.
    pub arena: Arena,
    /// Address of whoever signed the call.
    pub agent_signer: [u8; 32],
    /// The escrow record of the round that the move closes.
    pub round_state: RoundState,
}

/// What a stake is handed.
#[derive(Clone, Copy, Debug, PartialEq, Eq)]
pub struct Stake {
    /// Address of the arena program.
    pub program_id: [u8; 32],
    /// The arena's record.
    pub arena: Arena,
    /// The escrow record of the round that the stake names.
    pub round_state: RoundState,
    /// Balance of that round's escrow account; zero while it does not exist.
    pub round_vault_lamports: u64,
}

} // verus!
