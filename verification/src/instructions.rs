//! The arena's four calls.

use crate::accounts::{InitArena, Stake, SubmitMove, SubmitMoveFirst};
use crate::ledger::{
    AccountCreation, AccountCreationView, StakeOrder, StakeOrderView, Sweep, SweepView,
};
use crate::seeds::{
    program_address_bump, round_vault_bump, round_vault_seeds, round_vault_signer,
    round_vault_signer_seeds, treasury_signer, treasury_signer_seeds,
};
use crate::state::{keys_equal, Arena, ArenaError, RoundState};
use vstd::prelude::*;

verus! {

impl InitArena {
    /// The arena's record as initialisation leaves it.
    pub open spec fn initial_arena(self, agent_authority: [u8; 32]) -> Arena {
        Arena {
            authority: agent_authority,
            round: 0,
            agent_wins: 0,
            crowd_wins: 0,
            bump: self.arena_bump,
        }
    }

    /// The request that creates the treasury.
    pub open spec fn treasury_creation(self, rent_minimum: u64) -> AccountCreationView {
        AccountCreationView {
            lamports: rent_minimum,
            space: 0,
            owner: self.program_id@,
            signer_seeds: treasury_signer_seeds(self.agent_treasury_bump),
        }
    }
}

/// Initialises the arena: installs `agent_authority` as the agent, opens
/// round 0 with both win counters at zero, and asks the ledger to create the
/// treasury with `rent_minimum`, the least balance the ledger lets an empty
/// account hold.
pub fn init_arena(ctx: &mut InitArena, agent_authority: [u8; 32], rent_minimum: u64) -> (creation:
    AccountCreation)
    ensures
        *final(ctx) == (InitArena { arena: old(ctx).initial_arena(agent_authority), ..*old(ctx) }),
        creation@ == old(ctx).treasury_creation(rent_minimum),
{
    ctx.arena.authority = agent_authority;
    ctx.arena.round = 0;
    ctx.arena.agent_wins = 0;
    ctx.arena.crowd_wins = 0;
    ctx.arena.bump = ctx.arena_bump;
    AccountCreation {
        lamports: rent_minimum,
        space: 0,
        owner: ctx.program_id,
        signer_seeds: treasury_signer(ctx.agent_treasury_bump),
    }
}

impl SubmitMoveFirst {
    /// Why the first move is turned away, if it is.
    pub open spec fn rejection(self) -> Option<ArenaError> {
        if self.agent_signer@ != self.arena.authority@ {
            Some(ArenaError::NotAgent)
        } else if self.arena.round != 0 {
            Some(ArenaError::WrongRound)
        } else {
            None
        }
    }

    /// What the first move leaves behind.
    pub open spec fn after(self) -> SubmitMoveFirst {
        if self.rejection() is None {
            SubmitMoveFirst { arena: Arena { round: 1, ..self.arena }, ..self }
        } else {
            self
        }
    }
}

/// The agent's first move: opens round 1. Round 0 has no predecessor, so
/// nothing is settled and the ledger is not asked for anything; the choice
/// plays no part.
pub fn submit_move_first(ctx: &mut SubmitMoveFirst, _move_choice: u8) -> (res: Result<
    (),
    ArenaError,
>)
    ensures
        *final(ctx) == old(ctx).after(),
        match res {
            Ok(_) => old(ctx).rejection() is None,
            Err(e) => old(ctx).rejection() == Some(e),
        },
{
    if !keys_equal(&ctx.agent_signer, &ctx.arena.authority) {
        return Err(ArenaError::NotAgent);
    }
    if ctx.arena.round != 0 {
        return Err(ArenaError::WrongRound);
    }
    ctx.arena.round = 1;
    Ok(())
}

impl SubmitMove {
    /// Why the move is turned away, if it is.
    pub open spec fn rejection(self) -> Option<ArenaError> {
        if self.agent_signer@ != self.arena.authority@ {
            Some(ArenaError::NotAgent)
        } else if self.arena.round == 0 {
            Some(ArenaError::WrongRound)
        } else {
            None
        }
    }

    /// Number of the round that the move closes.
    pub open spec fn closing_round(self) -> u64 {
        (self.arena.round - 1) as u64
    }

    /// Whether the move sweeps the closing round's escrow to the treasury.
    pub open spec fn settles(self) -> bool {
        self.rejection() is None && self.round_state.awaits_settlement()
    }

    /// The bump seed of the closing round's escrow address, if the ledger's
    /// derivation finds one.
    pub open spec fn vault_bump(self) -> Option<u8> {
        program_address_bump(round_vault_seeds(self.closing_round()), self.program_id@)
    }

    /// Whether the move can be carried out: every counter it raises has room,
    /// the closing round's total fits the ledger's unit, and where it settles
    /// the escrow account can be signed for.
    pub open spec fn ready(self, move_choice: u8) -> bool {
        self.rejection() is None ==> {
            &&& self.arena.round < u64::MAX
            &&& self.round_state.total() <= u64::MAX
            &&& self.round_state.awaits_settlement() ==> {
                &&& move_choice == 0 ==> self.arena.agent_wins < u64::MAX
                &&& move_choice != 0 ==> self.arena.crowd_wins < u64::MAX
                &&& self.vault_bump() is Some
            }
        }
    }

    /// The arena's record after the move.
    pub open spec fn arena_after(self, move_choice: u8) -> Arena {
        if self.rejection() is Some {
            self.arena
        } else if !self.round_state.awaits_settlement() {
            Arena { round: (self.arena.round + 1) as u64, ..self.arena }
        } else if move_choice == 0 {
            Arena {
                round: (self.arena.round + 1) as u64,
                agent_wins: (self.arena.agent_wins + 1) as u64,
                ..self.arena
            }
        } else {
            Arena {
                round: (self.arena.round + 1) as u64,
                crowd_wins: (self.arena.crowd_wins + 1) as u64,
                ..self.arena
            }
        }
    }

    /// The closing round's record after the move.
    pub open spec fn round_state_after(self) -> RoundState {
        if self.settles() {
            RoundState { resolved: true, ..self.round_state }
        } else {
            self.round_state
        }
    }

    /// What the move leaves behind.
    pub open spec fn after(self, move_choice: u8) -> SubmitMove {
        SubmitMove {
            arena: self.arena_after(move_choice),
            round_state: self.round_state_after(),
            ..self
        }
    }

    /// What the move asks of the ledger.
    pub open spec fn sweep(self) -> Option<SweepView> {
        if self.settles() {
            Some(
                SweepView {
                    lamports: self.round_state.total() as u64,
                    signer_seeds: round_vault_signer_seeds(
                        self.closing_round(),
                        self.vault_bump().unwrap(),
                    ),
                },
            )
        } else {
            None
        }
    }
}

/// The agent's move in any round after the first call: closes the round
/// before the open one and opens the next.
///
/// If anything was staked on the closing round and it has not been swept yet,
/// the move settles it: the side that `move_choice` names (0 the agent, any
/// other value the crowd) gains a win, the round is marked resolved, and the
/// ledger is asked to sweep the round's whole total to the treasury. Otherwise
/// nothing is settled. Either way the round number rises by one. A move that
/// is turned away changes nothing.
pub fn submit_move(ctx: &mut SubmitMove, move_choice: u8) -> (res: Result<
    Option<Sweep>,
    ArenaError,
>)
    requires
        old(ctx).ready(move_choice),
    ensures
        *final(ctx) == old(ctx).after(move_choice),
        match res {
            Ok(Some(sweep)) => old(ctx).rejection() is None && old(ctx).sweep() == Some(sweep@),
            Ok(None) => old(ctx).rejection() is None && old(ctx).sweep() is None,
            Err(e) => old(ctx).rejection() == Some(e),
        },
        res is Err ==> *final(ctx) == *old(ctx),
        res is Ok ==> final(ctx).arena.round == old(ctx).arena.round + 1,
        res is Ok && old(ctx).round_state.total() == 0 ==> {
            &&& res matches Ok(None)
            &&& final(ctx).arena.agent_wins == old(ctx).arena.agent_wins
            &&& final(ctx).arena.crowd_wins == old(ctx).arena.crowd_wins
            &&& final(ctx).round_state == old(ctx).round_state
        },
        res is Ok && old(ctx).round_state.resolved ==> {
            &&& res matches Ok(None)
            &&& final(ctx).arena.agent_wins == old(ctx).arena.agent_wins
            &&& final(ctx).arena.crowd_wins == old(ctx).arena.crowd_wins
            &&& final(ctx).round_state == old(ctx).round_state
        },
{
    if !keys_equal(&ctx.agent_signer, &ctx.arena.authority) {
        return Err(ArenaError::NotAgent);
    }
    if ctx.arena.round == 0 {
        return Err(ArenaError::WrongRound);
    }
    let prev_round: u64 = ctx.arena.round - 1;
    let total: u64 = ctx.round_state.agent_lamports + ctx.round_state.crowd_lamports;
    let mut sweep: Option<Sweep> = None;
    if total > 0 && !ctx.round_state.resolved {
        if move_choice == 0 {
            ctx.arena.agent_wins += 1;
        } else {
            ctx.arena.crowd_wins += 1;
        }
        let bump: u8 = round_vault_bump(prev_round, &ctx.program_id).unwrap();
        sweep = Some(Sweep { lamports: total, signer_seeds: round_vault_signer(prev_round, bump) });
        ctx.round_state.resolved = true;
    }
    ctx.arena.round += 1;
    Ok(sweep)
}

/// [`submit_move`] for any input. `None`, with nothing changed, where the
/// move cannot be carried out: a counter it would raise is at its limit, the
/// closing round's total exceeds the ledger's unit, or the escrow account
/// that it would sweep cannot be signed for.
pub fn try_submit_move(ctx: &mut SubmitMove, move_choice: u8) -> (res: Option<
    Result<Option<Sweep>, ArenaError>,
>)
    ensures
        res is None <==> !old(ctx).ready(move_choice),
        match res {
            Some(Ok(Some(sweep))) => {
                &&& *final(ctx) == old(ctx).after(move_choice)
                &&& old(ctx).rejection() is None
                &&& old(ctx).sweep() == Some(sweep@)
            },
            Some(Ok(None)) => {
                &&& *final(ctx) == old(ctx).after(move_choice)
                &&& old(ctx).rejection() is None
                &&& old(ctx).sweep() is None
            },
            Some(Err(e)) => *final(ctx) == *old(ctx) && old(ctx).rejection() == Some(e),
            None => *final(ctx) == *old(ctx),
        },
{
    if keys_equal(&ctx.agent_signer, &ctx.arena.authority) && ctx.arena.round > 0 {
        if ctx.arena.round == u64::MAX {
            return None;
        }
        match ctx.round_state.agent_lamports.checked_add(ctx.round_state.crowd_lamports) {
            None => {
                return None;
            },
            Some(total) => {
                if total > 0 && !ctx.round_state.resolved {
                    let wins: u64 = if move_choice == 0 {
                        ctx.arena.agent_wins
                    } else {
                        ctx.arena.crowd_wins
                    };
                    if wins == u64::MAX {
                        return None;
                    }
                    if round_vault_bump(ctx.arena.round - 1, &ctx.program_id).is_none() {
                        return None;
                    }
                }
            },
        }
    }
    Some(submit_move(ctx, move_choice))
}

impl Stake {
    /// Why the stake is turned away, if it is.
    pub open spec fn rejection(self, round: u64, side: u8) -> Option<ArenaError> {
        if side > 1 {
            Some(ArenaError::InvalidSide)
        } else if round != self.arena.round {
            Some(ArenaError::WrongRound)
        } else {
            None
        }
    }

    /// Whether the stake is the first to reach the round's escrow account, so
    /// that the account has to be created.
    pub open spec fn opens_vault(self, round: u64, side: u8) -> bool {
        self.rejection(round, side) is None && self.round_vault_lamports == 0
    }

    /// The bump seed of the escrow address of round `round`, if the ledger's
    /// derivation finds one.
    pub open spec fn vault_bump(self, round: u64) -> Option<u8> {
        program_address_bump(round_vault_seeds(round), self.program_id@)
    }

    /// Whether the stake can be carried out: the sum it adds to has room, and
    /// where the escrow account has to be created it can be signed for.
    pub open spec fn ready(self, round: u64, side: u8, amount: u64) -> bool {
        self.rejection(round, side) is None ==> {
            &&& side == 0 ==> self.round_state.agent_lamports + amount <= u64::MAX
            &&& side == 1 ==> self.round_state.crowd_lamports + amount <= u64::MAX
            &&& self.round_vault_lamports == 0 ==> self.vault_bump(round) is Some
        }
    }

    /// The round's record after the stake.
    pub open spec fn round_state_after(self, round: u64, side: u8, amount: u64) -> RoundState {
        if self.rejection(round, side) is Some {
            self.round_state
        } else if side == 0 {
            RoundState {
                agent_lamports: (self.round_state.agent_lamports + amount) as u64,
                ..self.round_state
            }
        } else {
            RoundState {
                crowd_lamports: (self.round_state.crowd_lamports + amount) as u64,
                ..self.round_state
            }
        }
    }

    /// What the stake leaves behind.
    pub open spec fn after(self, round: u64, side: u8, amount: u64) -> Stake {
        Stake { round_state: self.round_state_after(round, side, amount), ..self }
    }

    /// What an accepted stake asks of the ledger.
    pub open spec fn order(self, round: u64, amount: u64, rent_minimum: u64) -> StakeOrderView {
        StakeOrderView {
            opening: if self.round_vault_lamports == 0 {
                Some(
                    AccountCreationView {
                        lamports: rent_minimum,
                        space: 0,
                        owner: self.program_id@,
                        signer_seeds: round_vault_signer_seeds(
                            round,
                            self.vault_bump(round).unwrap(),
                        ),
                    },
                )
            } else {
                None
            },
            deposit: amount,
        }
    }
}

/// Places a stake of `amount` on one side (0 the agent, 1 the crowd) of round
/// `round`, which has to be the round that is open.
///
/// An accepted stake adds `amount` to the sum of its side and to nothing
/// else, and asks the ledger to move `amount` from the staker into the round's
/// escrow account. Where that account holds nothing, it is created first, with
/// `rent_minimum`, the least balance the ledger lets an empty account hold.
/// A stake that is turned away changes nothing; no stake changes the arena's
/// record.
pub fn stake(ctx: &mut Stake, round: u64, side: u8, amount: u64, rent_minimum: u64) -> (res:
    Result<StakeOrder, ArenaError>)
    requires
        old(ctx).ready(round, side, amount),
    ensures
        *final(ctx) == old(ctx).after(round, side, amount),
        match res {
            Ok(order) => old(ctx).rejection(round, side) is None && order@ == old(ctx).order(
                round,
                amount,
                rent_minimum,
            ),
            Err(e) => old(ctx).rejection(round, side) == Some(e),
        },
        res is Err ==> *final(ctx) == *old(ctx),
        final(ctx).arena == old(ctx).arena,
        round != old(ctx).arena.round ==> res is Err,
        round != old(ctx).arena.round && side <= 1 ==> res == Err::<StakeOrder, ArenaError>(
            ArenaError::WrongRound,
        ),
{
    if side > 1 {
        return Err(ArenaError::InvalidSide);
    }
    if round != ctx.arena.round {
        return Err(ArenaError::WrongRound);
    }
    let mut opening: Option<AccountCreation> = None;
    if ctx.round_vault_lamports == 0 {
        let bump: u8 = round_vault_bump(round, &ctx.program_id).unwrap();
        opening = Some(
            AccountCreation {
                lamports: rent_minimum,
                space: 0,
                owner: ctx.program_id,
                signer_seeds: round_vault_signer(round, bump),
            },
        );
    }
    if side == 0 {
        ctx.round_state.agent_lamports += amount;
    } else {
        ctx.round_state.crowd_lamports += amount;
    }
    Ok(StakeOrder { opening, deposit: amount })
}

/// [`stake`] for any input. `None`, with nothing changed, where the stake
/// cannot be carried out: the sum it would add to has no room for `amount`,
/// or the escrow account that it would create cannot be signed for.
pub fn try_stake(ctx: &mut Stake, round: u64, side: u8, amount: u64, rent_minimum: u64) -> (res:
    Option<Result<StakeOrder, ArenaError>>)
    ensures
        res is None <==> !old(ctx).ready(round, side, amount),
        match res {
            Some(Ok(order)) => {
                &&& *final(ctx) == old(ctx).after(round, side, amount)
                &&& old(ctx).rejection(round, side) is None
                &&& order@ == old(ctx).order(round, amount, rent_minimum)
            },
            Some(Err(e)) => *final(ctx) == *old(ctx) && old(ctx).rejection(round, side) == Some(e),
            None => *final(ctx) == *old(ctx),
        },
{
    if side <= 1 && round == ctx.arena.round {
        let staked: u64 = if side == 0 {
            ctx.round_state.agent_lamports
        } else {
            ctx.round_state.crowd_lamports
        };
        if staked.checked_add(amount).is_none() {
            return None;
        }
        if ctx.round_vault_lamports == 0 && round_vault_bump(round, &ctx.program_id).is_none() {
            return None;
        }
    }
    Some(stake(ctx, round, side, amount, rent_minimum))
}

} // verus!


