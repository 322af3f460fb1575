use token_raffle::claim::claim_prize;
use token_raffle::errors::ErrorCode;
use token_raffle::raffle::{init_config, Pubkey, Raffle};
use token_raffle::tickets::buy_tickets;
use token_raffle::winner::reveal_winner;

fn pk(b: u8) -> Pubkey {
    [b; 32]
}

fn new_raffle(max_tickets: u64) -> Raffle {
    init_config(pk(9), 7, String::from("Prize Raffle"), 0, 100, 5, max_tickets)
}

/// A raffle with buyers A, B, C and a committed seed whose first byte is
/// `seed0`: the derived 128-bit value is simply `seed0`.
fn committed_raffle(seed0: u8) -> Raffle {
    let mut r = new_raffle(3);
    buy_tickets(&mut r, pk(1)).unwrap();
    buy_tickets(&mut r, pk(2)).unwrap();
    buy_tickets(&mut r, pk(3)).unwrap();
    r.randomness[0] = seed0;
    r.randomness_committed = true;
    r
}

#[test]
fn winner_is_seed_modulo_ticket_count() {
    // ticket_ledger=[A,B,C], v=7: winner_index = 7 mod 3 = 1, winner = B.
    let mut r = committed_raffle(7);
    let ev = reveal_winner(&mut r, pk(9), 100).expect("reveal should succeed");
    assert_eq!(ev.raffle_id, 7);
    assert_eq!(ev.winner_index, 1);
    assert_eq!(ev.winner, pk(2));
    assert_eq!(r.winner, pk(2));
    assert_eq!(r.winner_index, Some(1));
    assert!(r.winner_chosen);
    assert!(!r.is_active);
}

#[test]
fn reveal_reads_all_sixteen_seed_bytes() {
    // All-ones prefix: v = 2^128 - 1, and (2^128 - 1) mod 3 = 0.
    let mut r = committed_raffle(0);
    for i in 0..16 {
        r.randomness[i] = 0xFF;
    }
    let ev = reveal_winner(&mut r, pk(9), 100).expect("reveal should succeed");
    assert_eq!(ev.winner_index, 0);
    assert_eq!(ev.winner, pk(1));
}

#[test]
fn reveal_is_deterministic_across_identical_raffles() {
    let mut r1 = committed_raffle(7);
    let mut r2 = committed_raffle(7);
    let e1 = reveal_winner(&mut r1, pk(9), 100).unwrap();
    let e2 = reveal_winner(&mut r2, pk(9), 100).unwrap();
    assert_eq!(e1.winner_index, e2.winner_index);
    assert_eq!(e1.winner, e2.winner);
}

#[test]
fn reveal_requires_the_authority() {
    let mut r = committed_raffle(7);
    assert_eq!(reveal_winner(&mut r, pk(1), 100).unwrap_err(), ErrorCode::NotAuthorized);
}

#[test]
fn reveal_before_sale_end_fails() {
    let mut r = committed_raffle(7);
    assert_eq!(reveal_winner(&mut r, pk(9), 99).unwrap_err(), ErrorCode::RaffleStillActive);
}

#[test]
fn reveal_without_commitment_fails() {
    let mut r = new_raffle(3);
    buy_tickets(&mut r, pk(1)).unwrap();
    assert_eq!(
        reveal_winner(&mut r, pk(9), 100).unwrap_err(),
        ErrorCode::RandomnessNotCommitted
    );
}

#[test]
fn reveal_with_sentinel_seed_fails() {
    // The flag claims a commitment but the buffer is still all zero.
    let mut r = new_raffle(3);
    buy_tickets(&mut r, pk(1)).unwrap();
    r.randomness_committed = true;
    assert_eq!(
        reveal_winner(&mut r, pk(9), 100).unwrap_err(),
        ErrorCode::RandomnessNotCommitted
    );
}

#[test]
fn reveal_with_no_tickets_fails() {
    // Whatever the randomness state, a reveal with zero tickets is
    // refused.
    let mut r = new_raffle(3);
    r.randomness[0] = 7;
    r.randomness_committed = true;
    assert_eq!(reveal_winner(&mut r, pk(9), 100).unwrap_err(), ErrorCode::NoTicketsBought);
}

#[test]
fn reveal_when_winner_already_chosen_fails() {
    // Constructed directly: still active, yet a winner is recorded.
    let mut r = committed_raffle(7);
    r.winner_chosen = true;
    r.winner = pk(2);
    r.winner_index = Some(1);
    assert_eq!(
        reveal_winner(&mut r, pk(9), 100).unwrap_err(),
        ErrorCode::WinnerAlreadyChosen
    );
}

#[test]
fn second_reveal_fails_and_keeps_the_winner() {
    let mut r = committed_raffle(7);
    let ev = reveal_winner(&mut r, pk(9), 100).unwrap();
    assert_eq!(
        reveal_winner(&mut r, pk(9), 100).unwrap_err(),
        ErrorCode::RaffleNotActive
    );
    assert_eq!(r.winner, ev.winner);
    assert_eq!(r.winner_index, Some(ev.winner_index));
    assert!(r.winner_chosen);
}

#[test]
fn claim_before_sale_end_fails() {
    let mut r = committed_raffle(7);
    reveal_winner(&mut r, pk(9), 100).unwrap();
    assert_eq!(claim_prize(&mut r, pk(2), 99).unwrap_err(), ErrorCode::RaffleStillActive);
}

#[test]
fn claim_before_reveal_fails() {
    let mut r = committed_raffle(7);
    assert_eq!(claim_prize(&mut r, pk(2), 100).unwrap_err(), ErrorCode::WinnerNotChosen);
}

#[test]
fn claim_by_non_winner_fails() {
    let mut r = committed_raffle(7);
    reveal_winner(&mut r, pk(9), 100).unwrap();
    assert_eq!(r.winner, pk(2));
    assert_eq!(claim_prize(&mut r, pk(1), 100).unwrap_err(), ErrorCode::NotWinner);
    assert!(!r.claimed);
}

#[test]
fn claim_with_sentinel_seed_fails() {
    // Constructed directly: a winner is recorded but the seed is still the
    // zero sentinel.
    let mut r = new_raffle(3);
    buy_tickets(&mut r, pk(2)).unwrap();
    r.winner_chosen = true;
    r.is_active = false;
    r.winner = pk(2);
    r.winner_index = Some(0);
    assert_eq!(
        claim_prize(&mut r, pk(2), 100).unwrap_err(),
        ErrorCode::RandomnessNotCommitted
    );
}

#[test]
fn second_claim_fails_with_already_claimed() {
    // The prize settles exactly once; the second claim is refused and the
    // record keeps saying claimed.
    let mut r = committed_raffle(7);
    reveal_winner(&mut r, pk(9), 100).unwrap();
    assert_eq!(claim_prize(&mut r, pk(2), 100), Ok(()));
    assert!(r.claimed);
    assert_eq!(claim_prize(&mut r, pk(2), 100).unwrap_err(), ErrorCode::AlreadyClaimed);
    assert!(r.claimed);
    assert!(r.winner_chosen);
}
