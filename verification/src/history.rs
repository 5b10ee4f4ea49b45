//! The arena over time: everything its calls have recorded, and what holds
//! of it after any sequence of calls.
//!
//! Nothing here runs. A [`World`] is the arena's record together with the
//! escrow record of every round that was staked on and the sum that the
//! treasury has been sent; a [`Call`] is one call as the host delivers it.
//! [`World::step`] applies a call by the rules that the executable functions
//! are verified against, and the proofs below speak of every history.

use crate::accounts::{InitArena, Stake, SubmitMove, SubmitMoveFirst};
use crate::state::{Arena, RoundState};
use vstd::prelude::*;

verus! {

/// Everything the arena's calls have recorded.
pub struct World {
    /// Address of the arena program.
    pub program_id: [u8; 32],
    /// The arena's record.
    pub arena: Arena,
    /// The escrow records, by round number, of the rounds staked on so far.
    pub rounds: Map<u64, RoundState>,
    /// Everything that settlements have sent to the treasury.
    pub treasury_inflow: nat,
}

/// One call, as the host delivers it.
pub enum Call {
    /// The agent's first move.
    FirstMove { signer: [u8; 32], move_choice: u8 },
    /// A move after the first. `target` is the round whose escrow record
    /// the host hands to the move; `ledger_accepts` says whether the ledger
    /// carries out what the move asks of it.
    Move { signer: [u8; 32], move_choice: u8, target: u64, ledger_accepts: bool },
    /// A stake. `vault_lamports` is the balance that the ledger reports for
    /// the escrow account of the round named; `ledger_accepts` says whether
    /// the ledger carries out what the stake asks of it.
    Stake { round: u64, side: u8, amount: u64, vault_lamports: u64, ledger_accepts: bool },
}

impl World {
    /// The world that initialisation leaves: round 0 open, nothing staked,
    /// nothing sent to the treasury.
    pub open spec fn genesis(ctx: InitArena, agent_authority: [u8; 32]) -> World {
        World {
            program_id: ctx.program_id,
            arena: ctx.initial_arena(agent_authority),
            rounds: Map::empty(),
            treasury_inflow: 0,
        }
    }

    /// The escrow record of round `r`; that of a round nobody has staked on
    /// is all zero.
    pub open spec fn round_state(self, r: u64) -> RoundState {
        if self.rounds.dom().contains(r) {
            self.rounds[r]
        } else {
            RoundState::fresh()
        }
    }

    /// What a first move signed by `signer` is handed.
    pub open spec fn first_move_ctx(self, signer: [u8; 32]) -> SubmitMoveFirst {
        SubmitMoveFirst { arena: self.arena, agent_signer: signer }
    }

    /// What a move signed by `signer` is handed, with the escrow record of
    /// round `target`. A host that finds the record by the round number hands
    /// in that of the round before the open one; the arena's rules do not
    /// look, and nothing here depends on it.
    pub open spec fn move_ctx(self, signer: [u8; 32], target: u64) -> SubmitMove {
        SubmitMove {
            program_id: self.program_id,
            arena: self.arena,
            agent_signer: signer,
            round_state: self.round_state(target),
        }
    }

    /// What a stake on round `round` is handed.
    pub open spec fn stake_ctx(self, round: u64, vault_lamports: u64) -> Stake {
        Stake {
            program_id: self.program_id,
            arena: self.arena,
            round_state: self.round_state(round),
            round_vault_lamports: vault_lamports,
        }
    }

    /// Whether the call takes effect: it is not turned away, it can be
    /// carried out, and the ledger does its part. A call that does not take
    /// effect leaves no trace.
    pub open spec fn commits(self, call: Call) -> bool {
        match call {
            Call::FirstMove { signer, move_choice } => self.first_move_ctx(signer).rejection()
                is None,
            Call::Move { signer, move_choice, target, ledger_accepts } => {
                let ctx = self.move_ctx(signer, target);
                ctx.rejection() is None && ctx.ready(move_choice) && ledger_accepts
            },
            Call::Stake { round, side, amount, vault_lamports, ledger_accepts } => {
                let ctx = self.stake_ctx(round, vault_lamports);
                ctx.rejection(round, side) is None && ctx.ready(round, side, amount)
                    && ledger_accepts
            },
        }
    }

    /// Whether the call is a move that takes effect.
    pub open spec fn advances(self, call: Call) -> bool {
        self.commits(call) && !(call is Stake)
    }

    /// The round that the call settles, if it settles one.
    pub open spec fn settled_round(self, call: Call) -> Option<u64> {
        match call {
            Call::Move { signer, move_choice, target, ledger_accepts } => {
                let ctx = self.move_ctx(signer, target);
                if self.commits(call) && ctx.settles() {
                    Some(target)
                } else {
                    None
                }
            },
            _ => None,
        }
    }

    /// What the call sends to the treasury.
    pub open spec fn swept(self, call: Call) -> nat {
        match call {
            Call::Move { signer, move_choice, target, ledger_accepts } => {
                match self.move_ctx(signer, target).sweep() {
                    Some(sweep) if self.commits(call) => sweep.lamports as nat,
                    _ => 0,
                }
            },
            _ => 0,
        }
    }

    /// What the call adds to the stakes on `side` of round `r`.
    pub open spec fn staked(self, call: Call, r: u64, side: u8) -> nat {
        match call {
            Call::Stake { round, side: on, amount, vault_lamports, ledger_accepts } => {
                if self.commits(call) && round == r && on == side {
                    amount as nat
                } else {
                    0
                }
            },
            _ => 0,
        }
    }

    /// The world after the call.
    pub open spec fn step(self, call: Call) -> World {
        if !self.commits(call) {
            self
        } else {
            match call {
                Call::FirstMove { signer, move_choice } => World {
                    arena: self.first_move_ctx(signer).after().arena,
                    ..self
                },
                Call::Move { signer, move_choice, target, ledger_accepts } => {
                    let ctx = self.move_ctx(signer, target);
                    World {
                        arena: ctx.after(move_choice).arena,
                        rounds: if ctx.settles() {
                            self.rounds.insert(target, ctx.after(move_choice).round_state)
                        } else {
                            self.rounds
                        },
                        treasury_inflow: self.treasury_inflow + self.swept(call),
                        ..self
                    }
                },
                Call::Stake { round, side, amount, vault_lamports, ledger_accepts } => {
                    let ctx = self.stake_ctx(round, vault_lamports);
                    World {
                        rounds: self.rounds.insert(
                            round,
                            ctx.after(round, side, amount).round_state,
                        ),
                        ..self
                    }
                },
            }
        }
    }

    /// The world after a sequence of calls, first to last.
    pub open spec fn run(self, calls: Seq<Call>) -> World
        decreases calls.len(),
    {
        if calls.len() == 0 {
            self
        } else {
            self.step(calls[0]).run(calls.drop_first())
        }
    }

    /// How many calls of the sequence are moves that take effect.
    pub open spec fn moves_made(self, calls: Seq<Call>) -> nat
        decreases calls.len(),
    {
        if calls.len() == 0 {
            0
        } else {
            (if self.advances(calls[0]) {
                1nat
            } else {
                0nat
            }) + self.step(calls[0]).moves_made(calls.drop_first())
        }
    }

    /// How many calls of the sequence settle round `r`.
    pub open spec fn times_settled(self, calls: Seq<Call>, r: u64) -> nat
        decreases calls.len(),
    {
        if calls.len() == 0 {
            0
        } else {
            (if self.settled_round(calls[0]) == Some(r) {
                1nat
            } else {
                0nat
            }) + self.step(calls[0]).times_settled(calls.drop_first(), r)
        }
    }

    /// What the calls of the sequence add to the stakes on `side` of round `r`.
    pub open spec fn staked_over(self, calls: Seq<Call>, r: u64, side: u8) -> nat
        decreases calls.len(),
    {
        if calls.len() == 0 {
            0
        } else {
            self.staked(calls[0], r, side) + self.step(calls[0]).staked_over(
                calls.drop_first(),
                r,
                side,
            )
        }
    }

    /// What the calls of the sequence send to the treasury.
    pub open spec fn swept_over(self, calls: Seq<Call>) -> nat
        decreases calls.len(),
    {
        if calls.len() == 0 {
            0
        } else {
            self.swept(calls[0]) + self.step(calls[0]).swept_over(calls.drop_first())
        }
    }

    /// What round `r` has sent to the treasury: its whole total once it is
    /// resolved, nothing before.
    pub open spec fn settled_value(self, r: u64) -> nat {
        if self.round_state(r).resolved {
            self.round_state(r).total()
        } else {
            0
        }
    }

    /// What the rounds below `n` have sent to the treasury.
    pub open spec fn settled_below(self, n: nat) -> nat
        decreases n,
    {
        if n == 0 {
            0
        } else {
            self.settled_below((n - 1) as nat) + self.settled_value((n - 1) as u64)
        }
    }

    /// One if round `r` is resolved, zero if not.
    pub open spec fn resolved_at(self, r: u64) -> nat {
        if self.round_state(r).resolved {
            1
        } else {
            0
        }
    }

    /// How many of the rounds below `n` are resolved.
    pub open spec fn resolved_below(self, n: nat) -> nat
        decreases n,
    {
        if n == 0 {
            0
        } else {
            self.resolved_below((n - 1) as nat) + self.resolved_at((n - 1) as u64)
        }
    }

    /// What holds of every world that the calls can reach from
    /// initialisation: only closed rounds are resolved, and only rounds that
    /// hold stakes; only rounds up to the open one hold stakes; the treasury
    /// has been sent exactly the totals of the resolved rounds; and the two
    /// win counters together count the resolved rounds.
    pub open spec fn consistent(self) -> bool {
        &&& forall|r: u64| (#[trigger] self.round_state(r)).resolved ==> r < self.arena.round
        &&& forall|r: u64|
            (#[trigger] self.round_state(r)).resolved ==> self.round_state(r).total() > 0
        &&& forall|r: u64| r > self.arena.round ==> (#[trigger] self.round_state(r)).total() == 0
        &&& self.treasury_inflow == self.settled_below(self.arena.round as nat)
        &&& self.arena.agent_wins + self.arena.crowd_wins == self.resolved_below(
            self.arena.round as nat,
        )
    }
}

} // verus!
