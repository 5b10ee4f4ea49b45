//! The round lifecycle and escrow settlement rules of a wagering arena.
//!
//! One agent announces a binary outcome per round; anyone may stake on the
//! round that is open. The agent's next move closes the previous round and
//! sweeps everything staked on it to the agent's treasury, at most once.
//!
//! The functions here decide and record; they do not move value. Each returns
//! the ledger operations that the host has to carry out for the call to stand.

pub mod accounts;
pub mod guarantees;
pub mod history;
pub mod instructions;
pub mod ledger;
pub mod seeds;
pub mod state;

pub use accounts::{InitArena, Stake, SubmitMove, SubmitMoveFirst};
pub use instructions::{
    init_arena, stake, submit_move, submit_move_first, try_stake, try_submit_move,
};
pub use ledger::{AccountCreation, StakeOrder, Sweep};
pub use state::{keys_equal, Arena, ArenaError, RoundState};
