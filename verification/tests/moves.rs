use agent_arena::{
    submit_move, submit_move_first, try_submit_move, Arena, ArenaError, RoundState, SubmitMove,
    SubmitMoveFirst,
};

const PROGRAM: [u8; 32] = [42u8; 32];
const AGENT: [u8; 32] = [7u8; 32];
const STRANGER: [u8; 32] = [8u8; 32];

fn arena(round: u64, agent_wins: u64, crowd_wins: u64) -> Arena {
    Arena { authority: AGENT, round, agent_wins, crowd_wins, bump: 254 }
}

fn staked(agent_lamports: u64, crowd_lamports: u64, resolved: bool) -> RoundState {
    RoundState { agent_lamports, crowd_lamports, resolved }
}

fn move_on(arena: Arena, round_state: RoundState) -> SubmitMove {
    SubmitMove { program_id: PROGRAM, arena, agent_signer: AGENT, round_state }
}

#[test]
fn first_move_by_a_stranger_is_not_agent() {
    let before = SubmitMoveFirst { arena: arena(0, 0, 0), agent_signer: STRANGER };
    let mut ctx = before;
    assert_eq!(submit_move_first(&mut ctx, 0), Err(ArenaError::NotAgent));
    assert_eq!(ctx, before);
}

#[test]
fn first_move_after_round_zero_is_wrong_round() {
    let before = SubmitMoveFirst { arena: arena(1, 0, 0), agent_signer: AGENT };
    let mut ctx = before;
    assert_eq!(submit_move_first(&mut ctx, 0), Err(ArenaError::WrongRound));
    assert_eq!(ctx, before);
}

#[test]
fn first_move_checks_the_signer_before_the_round() {
    let mut ctx = SubmitMoveFirst { arena: arena(4, 0, 0), agent_signer: STRANGER };
    assert_eq!(submit_move_first(&mut ctx, 0), Err(ArenaError::NotAgent));
}

#[test]
fn first_move_ignores_the_choice() {
    for choice in [0u8, 1, 2, 255] {
        let mut ctx = SubmitMoveFirst { arena: arena(0, 0, 0), agent_signer: AGENT };
        assert_eq!(submit_move_first(&mut ctx, choice), Ok(()));
        assert_eq!(ctx.arena, arena(1, 0, 0));
    }
}

#[test]
fn signers_differing_in_one_byte_are_told_apart() {
    for i in 0..32 {
        let mut signer = AGENT;
        signer[i] ^= 1;
        let mut ctx = SubmitMoveFirst { arena: arena(0, 0, 0), agent_signer: signer };
        assert_eq!(submit_move_first(&mut ctx, 0), Err(ArenaError::NotAgent));
    }
}

#[test]
fn move_in_round_zero_is_wrong_round() {
    let before = move_on(arena(0, 0, 0), staked(0, 0, false));
    let mut ctx = before;
    assert_eq!(submit_move(&mut ctx, 0), Err(ArenaError::WrongRound));
    assert_eq!(ctx, before);
}

#[test]
fn move_checks_the_signer_before_the_round() {
    let mut ctx = move_on(arena(0, 0, 0), staked(0, 0, false));
    ctx.agent_signer = STRANGER;
    assert_eq!(submit_move(&mut ctx, 0), Err(ArenaError::NotAgent));
}

#[test]
fn choice_zero_is_an_agent_win() {
    let mut ctx = move_on(arena(5, 2, 1), staked(30, 12, false));
    let sweep = try_submit_move(&mut ctx, 0).unwrap().unwrap().unwrap();
    assert_eq!(sweep.lamports, 42);
    assert_eq!(ctx.arena, arena(6, 3, 1));
    assert_eq!(ctx.round_state, staked(30, 12, true));
}

#[test]
fn choice_one_is_a_crowd_win() {
    let mut ctx = move_on(arena(5, 2, 1), staked(30, 12, false));
    let sweep = try_submit_move(&mut ctx, 1).unwrap().unwrap().unwrap();
    assert_eq!(sweep.lamports, 42);
    assert_eq!(ctx.arena, arena(6, 2, 2));
}

#[test]
fn any_other_choice_is_a_crowd_win() {
    for choice in [2u8, 7, 255] {
        let mut ctx = move_on(arena(5, 2, 1), staked(0, 9, false));
        let sweep = try_submit_move(&mut ctx, choice).unwrap().unwrap().unwrap();
        assert_eq!(sweep.lamports, 9);
        assert_eq!(ctx.arena, arena(6, 2, 2));
    }
}

#[test]
fn stakes_on_one_side_only_are_swept_too() {
    let mut ctx = move_on(arena(2, 0, 0), staked(0, 77, false));
    let sweep = try_submit_move(&mut ctx, 0).unwrap().unwrap().unwrap();
    assert_eq!(sweep.lamports, 77);
    assert_eq!(ctx.arena, arena(3, 1, 0));
}

#[test]
fn sweep_is_signed_with_the_closing_rounds_seeds() {
    let mut ctx = move_on(arena(0x0102, 0, 0), staked(1, 0, false));
    let sweep = try_submit_move(&mut ctx, 0).unwrap().unwrap().unwrap();
    assert_eq!(sweep.signer_seeds.len(), 3);
    assert_eq!(sweep.signer_seeds[0], b"round_vault".to_vec());
    assert_eq!(sweep.signer_seeds[1], vec![0x01u8, 0x01, 0, 0, 0, 0, 0, 0]);
    assert_eq!(sweep.signer_seeds[2].len(), 1);
}

#[test]
fn replayed_move_does_not_settle_again() {
    let mut ctx = move_on(arena(2, 0, 0), staked(100, 50, false));
    let first = try_submit_move(&mut ctx, 0).unwrap().unwrap();
    assert_eq!(first.map(|s| s.lamports), Some(150));
    assert_eq!(ctx.arena, arena(3, 1, 0));

    // The same escrow record is handed in again, whatever the arena's round.
    for _ in 0..3 {
        let wins = (ctx.arena.agent_wins, ctx.arena.crowd_wins);
        let round = ctx.arena.round;
        assert_eq!(submit_move(&mut ctx, 1), Ok(None));
        assert_eq!((ctx.arena.agent_wins, ctx.arena.crowd_wins), wins);
        assert_eq!(ctx.arena.round, round + 1);
        assert_eq!(ctx.round_state, staked(100, 50, true));
    }
}

#[test]
fn resolved_round_is_never_swept() {
    let mut ctx = move_on(arena(9, 4, 4), staked(5, 5, true));
    assert_eq!(submit_move(&mut ctx, 0), Ok(None));
    assert_eq!(ctx.arena, arena(10, 4, 4));
    assert_eq!(ctx.round_state, staked(5, 5, true));
}

#[test]
fn move_at_the_last_round_cannot_be_carried_out() {
    let before = move_on(arena(u64::MAX, 0, 0), staked(0, 0, false));
    let mut ctx = before;
    assert_eq!(try_submit_move(&mut ctx, 0), None);
    assert_eq!(ctx, before);
}

#[test]
fn move_over_a_total_beyond_the_unit_cannot_be_carried_out() {
    let before = move_on(arena(3, 0, 0), staked(u64::MAX, 1, false));
    let mut ctx = before;
    assert_eq!(try_submit_move(&mut ctx, 0), None);
    assert_eq!(ctx, before);
}

#[test]
fn move_with_a_full_win_counter_cannot_be_carried_out() {
    let before = move_on(arena(3, u64::MAX, 0), staked(1, 1, false));
    let mut ctx = before;
    assert_eq!(try_submit_move(&mut ctx, 0), None);
    assert_eq!(ctx, before);
    // The other side's counter has room.
    let sweep = try_submit_move(&mut ctx, 1).unwrap().unwrap().unwrap();
    assert_eq!(sweep.lamports, 2);
    assert_eq!(ctx.arena, arena(4, u64::MAX, 1));

    let before = move_on(arena(3, 0, u64::MAX), staked(1, 1, false));
    let mut ctx = before;
    assert_eq!(try_submit_move(&mut ctx, 1), None);
    assert_eq!(ctx, before);
}

#[test]
fn full_win_counter_does_not_stop_a_move_that_settles_nothing() {
    let mut ctx = move_on(arena(3, u64::MAX, u64::MAX), staked(0, 0, false));
    assert_eq!(try_submit_move(&mut ctx, 0), Some(Ok(None)));
    assert_eq!(ctx.arena, arena(4, u64::MAX, u64::MAX));
}

#[test]
fn limits_do_not_hide_a_rejection() {
    let mut ctx = move_on(arena(u64::MAX, 0, 0), staked(u64::MAX, 1, false));
    ctx.agent_signer = STRANGER;
    assert_eq!(try_submit_move(&mut ctx, 0), Some(Err(ArenaError::NotAgent)));
}

#[test]
fn largest_total_that_fits_is_swept_whole() {
    let mut ctx = move_on(arena(1, 0, 0), staked(u64::MAX - 1, 1, false));
    let sweep = try_submit_move(&mut ctx, 0).unwrap().unwrap().unwrap();
    assert_eq!(sweep.lamports, u64::MAX);
}
