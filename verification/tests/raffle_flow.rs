use token_raffle::claim::claim_prize;
use token_raffle::errors::ErrorCode;
use token_raffle::raffle::{init_config, Pubkey, Raffle, MAX_LEDGER_CAPACITY, PRIZE_AMOUNT};
use token_raffle::randomness::commit_randomness;
use token_raffle::tickets::buy_tickets;
use token_raffle::winner::reveal_winner;

fn pk(b: u8) -> Pubkey {
    [b; 32]
}

fn new_raffle(max_tickets: u64) -> Raffle {
    init_config(pk(9), 7, String::from("My Raffle"), 0, 100, 5, max_tickets)
}

#[test]
fn init_config_sets_all_fields() {
    let r = new_raffle(3);
    assert_eq!(r.authority, pk(9));
    assert_eq!(r.raffle_id, 7);
    assert_eq!(r.name, "My Raffle");
    assert_eq!(r.sale_start, 0);
    assert_eq!(r.sale_end, 100);
    assert_eq!(r.price, 5);
    assert_eq!(r.max_tickets, 3);
    assert_eq!(r.total_tickets_bought, 0);
    assert!(r.ticket_ledger.is_empty());
    assert_eq!(r.randomness, [0u8; 32]);
    assert!(!r.randomness_committed);
    assert_eq!(r.winner_index, None);
    assert!(!r.winner_chosen);
    assert!(r.is_active);
    assert!(!r.claimed);
    assert_eq!(r.prize_amount, PRIZE_AMOUNT);
    assert!(MAX_LEDGER_CAPACITY >= 3);
}

#[test]
fn buying_fills_ledger_in_order_until_capacity() {
    // Configure(max_tickets=3); BuyTicket(A); BuyTicket(B); BuyTicket(C);
    // then a fourth buyer is turned away.
    let mut r = new_raffle(3);
    assert_eq!(buy_tickets(&mut r, pk(1)), Ok(0));
    assert_eq!(buy_tickets(&mut r, pk(2)), Ok(1));
    assert_eq!(buy_tickets(&mut r, pk(3)), Ok(2));
    assert_eq!(r.total_tickets_bought, 3);
    assert_eq!(r.ticket_ledger, vec![pk(1), pk(2), pk(3)]);
    assert_eq!(buy_tickets(&mut r, pk(4)), Err(ErrorCode::NoTicketsLeft));
    assert_eq!(r.total_tickets_bought, 3);
    assert_eq!(r.ticket_ledger, vec![pk(1), pk(2), pk(3)]);
}

#[test]
fn one_buyer_may_fill_the_whole_raffle() {
    // No per-buyer cap: the same identity may take every ticket.
    let mut r = new_raffle(2);
    assert_eq!(buy_tickets(&mut r, pk(1)), Ok(0));
    assert_eq!(buy_tickets(&mut r, pk(1)), Ok(1));
    assert_eq!(buy_tickets(&mut r, pk(1)), Err(ErrorCode::NoTicketsLeft));
    assert_eq!(r.ticket_ledger, vec![pk(1), pk(1)]);
}

#[test]
fn full_lifecycle_ends_claimed() {
    let mut r = new_raffle(2);
    assert_eq!(buy_tickets(&mut r, pk(1)), Ok(0));
    assert_eq!(buy_tickets(&mut r, pk(2)), Ok(1));
    assert_eq!(commit_randomness(&mut r, pk(9), true, 100, 3, None), Ok(()));
    assert!(r.randomness_committed);
    let ev = reveal_winner(&mut r, pk(9), 100).expect("reveal should succeed");
    assert!(r.winner_chosen);
    assert!(!r.is_active);
    let winner = ev.winner;
    assert_eq!(claim_prize(&mut r, winner, 100), Ok(()));
    assert!(r.claimed);
}

#[test]
fn buying_leaves_flags_untouched() {
    let mut r = new_raffle(3);
    assert_eq!(buy_tickets(&mut r, pk(1)), Ok(0));
    assert!(!r.randomness_committed);
    assert!(!r.winner_chosen);
    assert!(!r.claimed);
    assert!(r.is_active);
    assert_eq!(r.randomness, [0u8; 32]);
}

#[test]
fn error_descriptions_are_nonempty() {
    assert!(!ErrorCode::NoTicketsLeft.describe().is_empty());
    assert!(!ErrorCode::NotAuthorized.describe().is_empty());
    assert_eq!(ErrorCode::AlreadyClaimed.describe(), "Already claimed");
}
