//! What holds of the arena after any sequence of calls.

use crate::accounts::{InitArena, SubmitMove};
use crate::history::{Call, World};
use vstd::prelude::*;

verus! {

/// A move that takes effect raises the round number by exactly one. Every
/// other call, a stake above all, leaves the round number as it was. No call
/// changes who the agent is, and no call lowers a win counter.
pub proof fn lemma_call_moves_round_by_one(w: World, call: Call)
    ensures
        w.advances(call) ==> w.step(call).arena.round == w.arena.round + 1,
        !w.advances(call) ==> w.step(call).arena.round == w.arena.round,
        call is Stake ==> w.step(call).arena == w.arena,
        w.step(call).arena.authority == w.arena.authority,
        w.step(call).arena.agent_wins >= w.arena.agent_wins,
        w.step(call).arena.crowd_wins >= w.arena.crowd_wins,
        w.step(call).program_id == w.program_id,
{
}

/// Over any sequence of calls the round number rises by the number of moves
/// that took effect: it never decreases and never skips.
pub proof fn lemma_round_counts_moves(w: World, calls: Seq<Call>)
    ensures
        w.run(calls).arena.round == w.arena.round + w.moves_made(calls),
        w.run(calls).arena.round >= w.arena.round,
        w.run(calls).arena.authority == w.arena.authority,
        w.run(calls).arena.agent_wins >= w.arena.agent_wins,
        w.run(calls).arena.crowd_wins >= w.arena.crowd_wins,
    decreases calls.len(),
{
    if calls.len() > 0 {
        lemma_call_moves_round_by_one(w, calls[0]);
        lemma_round_counts_moves(w.step(calls[0]), calls.drop_first());
    }
}

/// A stake that names another round than the open one takes no effect: the
/// arena's record, every round's record and what the treasury has been sent
/// are as they were.
pub proof fn lemma_misdirected_stake_changes_nothing(w: World, call: Call)
    requires
        call is Stake,
        call->round != w.arena.round,
    ensures
        !w.commits(call),
        w.step(call) == w,
{
}

/// A move that closes a round on which nothing is staked still opens the
/// next round, but sweeps nothing, settles nothing and counts no win.
pub proof fn lemma_empty_round_is_skipped(w: World, call: Call)
    requires
        call is Move,
        w.commits(call),
        w.round_state(call->target).total() == 0,
    ensures
        w.step(call).arena.round == w.arena.round + 1,
        w.step(call).arena.agent_wins == w.arena.agent_wins,
        w.step(call).arena.crowd_wins == w.arena.crowd_wins,
        w.step(call).rounds == w.rounds,
        w.step(call).treasury_inflow == w.treasury_inflow,
        w.swept(call) == 0,
        w.settled_round(call) is None,
{
}

/// A call changes the stakes of a round by what it stakes on it and by
/// nothing else, and it never clears a round's resolved flag.
pub proof fn lemma_call_adds_its_stake(w: World, call: Call, r: u64)
    ensures
        w.step(call).round_state(r).agent_lamports == w.round_state(r).agent_lamports + w.staked(
            call,
            r,
            0,
        ),
        w.step(call).round_state(r).crowd_lamports == w.round_state(r).crowd_lamports + w.staked(
            call,
            r,
            1,
        ),
        w.round_state(r).resolved ==> w.step(call).round_state(r).resolved,
        w.settled_round(call) == Some(r) ==> !w.round_state(r).resolved && w.step(
            call,
        ).round_state(r).resolved,
        w.settled_round(call) != Some(r) ==> w.step(call).round_state(r).resolved
            == w.round_state(r).resolved,
{
}

/// Additivity: after any sequence of calls, each side of a round holds what
/// it held before plus the amounts of the stakes that were placed on that
/// side of that round and took effect.
pub proof fn lemma_stakes_add_up(w: World, calls: Seq<Call>, r: u64)
    ensures
        w.run(calls).round_state(r).agent_lamports == w.round_state(r).agent_lamports
            + w.staked_over(calls, r, 0),
        w.run(calls).round_state(r).crowd_lamports == w.round_state(r).crowd_lamports
            + w.staked_over(calls, r, 1),
        !w.rounds.dom().contains(r) ==> {
            &&& w.run(calls).round_state(r).agent_lamports == w.staked_over(calls, r, 0)
            &&& w.run(calls).round_state(r).crowd_lamports == w.staked_over(calls, r, 1)
        },
    decreases calls.len(),
{
    if calls.len() > 0 {
        lemma_call_adds_its_stake(w, calls[0], r);
        lemma_stakes_add_up(w.step(calls[0]), calls.drop_first(), r);
    }
}

/// Stakes commute: two stakes that take effect one after the other take
/// effect in the other order too, and leave the same world.
pub proof fn lemma_stakes_commute(w: World, a: Call, b: Call)
    requires
        a is Stake,
        b is Stake,
        w.commits(a),
        w.step(a).commits(b),
    ensures
        w.commits(b),
        w.step(b).commits(a),
        w.step(b).step(a) == w.step(a).step(b),
{
    assert(w.step(b).step(a).rounds =~= w.step(a).step(b).rounds);
}

/// Once a round is resolved it stays resolved, and no later call settles it.
pub proof fn lemma_resolved_is_final(w: World, calls: Seq<Call>, r: u64)
    requires
        w.round_state(r).resolved,
    ensures
        w.run(calls).round_state(r).resolved,
        w.times_settled(calls, r) == 0,
    decreases calls.len(),
{
    if calls.len() > 0 {
        lemma_call_adds_its_stake(w, calls[0], r);
        lemma_resolved_is_final(w.step(calls[0]), calls.drop_first(), r);
    }
}

/// At most once: in any sequence of calls, each round is settled at most one
/// time.
pub proof fn lemma_settled_at_most_once(w: World, calls: Seq<Call>, r: u64)
    ensures
        w.times_settled(calls, r) <= 1,
    decreases calls.len(),
{
    if calls.len() > 0 {
        lemma_call_adds_its_stake(w, calls[0], r);
        if w.settled_round(calls[0]) == Some(r) {
            lemma_resolved_is_final(w.step(calls[0]), calls.drop_first(), r);
        } else {
            lemma_settled_at_most_once(w.step(calls[0]), calls.drop_first(), r);
        }
    }
}

/// A move that is handed the escrow record left by a settlement settles
/// nothing, whoever signs it, whatever it chooses and whatever round the
/// arena is in: replaying a move against a settled round sweeps no second
/// time.
pub proof fn lemma_replay_settles_nothing(
    first: SubmitMove,
    first_choice: u8,
    replay: SubmitMove,
)
    requires
        first.settles(),
        replay.round_state == first.after(first_choice).round_state,
    ensures
        !replay.settles(),
        replay.sweep() is None,
{
}

/// Two worlds that differ in the record of round `t` at most differ, in what
/// the rounds below `n` have sent to the treasury and in how many of them are
/// resolved, by that round's share at most.
proof fn lemma_sums_differ_by_one_round(a: World, b: World, t: u64, n: nat)
    requires
        n <= u64::MAX + 1,
        forall|r: u64| r != t ==> a.round_state(r) == b.round_state(r),
    ensures
        t >= n ==> a.settled_below(n) == b.settled_below(n),
        t >= n ==> a.resolved_below(n) == b.resolved_below(n),
        t < n ==> a.settled_below(n) - a.settled_value(t) == b.settled_below(n) - b.settled_value(
            t,
        ),
        t < n ==> a.resolved_below(n) - a.resolved_at(t) == b.resolved_below(n) - b.resolved_at(t),
    decreases n,
{
    if n > 0 {
        lemma_sums_differ_by_one_round(a, b, t, (n - 1) as nat);
        if t != (n - 1) as u64 {
            assert(a.round_state((n - 1) as u64) == b.round_state((n - 1) as u64));
        }
    }
}

/// The world that initialisation leaves is consistent.
pub proof fn lemma_genesis_is_consistent(ctx: InitArena, agent_authority: [u8; 32])
    ensures
        World::genesis(ctx, agent_authority).consistent(),
{
}

/// No call leads out of the consistent worlds.
pub proof fn lemma_call_keeps_consistent(w: World, call: Call)
    requires
        w.consistent(),
    ensures
        w.step(call).consistent(),
{
    let next = w.step(call);
    let open: nat = w.arena.round as nat;
    if w.commits(call) {
        match call {
            Call::FirstMove { signer, move_choice } => {
                assert(forall|r: u64| next.round_state(r) == w.round_state(r));
                lemma_sums_differ_by_one_round(w, next, 0, 1);
            },
            Call::Move { signer, move_choice, target, ledger_accepts } => {
                assert(forall|r: u64| r != target ==> next.round_state(r) == w.round_state(r));
                lemma_sums_differ_by_one_round(w, next, target, open);
                lemma_sums_differ_by_one_round(w, next, target, open + 1);
            },
            Call::Stake { round, side, amount, vault_lamports, ledger_accepts } => {
                assert(forall|r: u64| r != round ==> next.round_state(r) == w.round_state(r));
                lemma_sums_differ_by_one_round(w, next, round, open);
            },
        }
    }
}

/// In a consistent world a resolved round is frozen: no call changes its
/// record any more.
pub proof fn lemma_resolved_round_is_frozen(w: World, call: Call, r: u64)
    requires
        w.consistent(),
        w.round_state(r).resolved,
    ensures
        w.step(call).round_state(r) == w.round_state(r),
{
}

/// Every world that a sequence of calls reaches from a consistent one is
/// consistent, and the record of a round that was resolved at the start is
/// the same at the end.
pub proof fn lemma_history_keeps_consistent(w: World, calls: Seq<Call>)
    requires
        w.consistent(),
    ensures
        w.run(calls).consistent(),
        forall|r: u64|
            (#[trigger] w.round_state(r)).resolved ==> w.run(calls).round_state(r)
                == w.round_state(r),
    decreases calls.len(),
{
    if calls.len() > 0 {
        let next = w.step(calls[0]);
        lemma_call_keeps_consistent(w, calls[0]);
        lemma_history_keeps_consistent(next, calls.drop_first());
        assert forall|r: u64| (#[trigger] w.round_state(r)).resolved implies w.run(
            calls,
        ).round_state(r) == w.round_state(r) by {
            lemma_resolved_round_is_frozen(w, calls[0], r);
        }
    }
}

/// What the treasury has been sent grows by what the calls sweep, and by
/// nothing else.
pub proof fn lemma_treasury_receives_the_sweeps(w: World, calls: Seq<Call>)
    ensures
        w.run(calls).treasury_inflow == w.treasury_inflow + w.swept_over(calls),
    decreases calls.len(),
{
    if calls.len() > 0 {
        lemma_treasury_receives_the_sweeps(w.step(calls[0]), calls.drop_first());
    }
}

/// Conservation: after initialisation and any sequence of calls, what the
/// settlements have swept to the treasury is the sum, over the rounds that
/// are resolved, of everything staked on them. Each of those rounds is closed
/// and holds a total above zero, and the two win counters together count
/// them.
pub proof fn lemma_conservation(ctx: InitArena, agent_authority: [u8; 32], calls: Seq<Call>)
    ensures
        ({
            let start = World::genesis(ctx, agent_authority);
            let end = start.run(calls);
            &&& start.swept_over(calls) == end.treasury_inflow
            &&& end.treasury_inflow == end.settled_below(end.arena.round as nat)
            &&& end.arena.agent_wins + end.arena.crowd_wins == end.resolved_below(
                end.arena.round as nat,
            )
            &&& forall|r: u64|
                (#[trigger] end.round_state(r)).resolved ==> r < end.arena.round
                    && end.round_state(r).total() > 0
        }),
{
    let start = World::genesis(ctx, agent_authority);
    lemma_genesis_is_consistent(ctx, agent_authority);
    lemma_history_keeps_consistent(start, calls);
    lemma_treasury_receives_the_sweeps(start, calls);
}

} // verus!

