use vstd::prelude::*;

use vstd::bytes::{spec_u128_from_le_bytes, u128_from_le_bytes};
use vstd::slice::slice_subrange;

use crate::errors::ErrorCode;
use crate::raffle::{Pubkey, Raffle};
use crate::randomness::zero_seed;

verus! {

/// Notification emitted on a successful reveal, carrying the raffle
/// identifier, the selected winner and its index for external observers.
#[derive(Clone, Copy, Debug)]
pub struct WinnerChosen {
    pub raffle_id: u64,
    pub winner: Pubkey,
    pub winner_index: u64,
}

/// The first 16 bytes of the seed buffer read as an unsigned little-endian
/// 128-bit integer.
pub open spec fn seed_value(randomness: Seq<u8>) -> u128 {
    spec_u128_from_le_bytes(randomness.subrange(0, 16))
}

/// The winning index for a given seed buffer and ticket count: the seed
/// value modulo the count. The mapping carries a modulo bias, negligible by
/// design with at most 100 tickets against a 2^128 seed space; it is kept
/// as is, since changing it would change observable outcomes for a fixed
/// seed.
pub open spec fn spec_winner_index(randomness: Seq<u8>, n: int) -> int {
    seed_value(randomness) as int % n
}

/// Every precondition of `reveal_winner`: the caller is the authority, the
/// sale window has ended, the raffle is active, a non-sentinel seed has
/// been committed, no winner has been chosen yet, at least one ticket was
/// bought, and the ledger agrees with the counter.
pub open spec fn reveal_allowed(r: Raffle, caller: Seq<u8>, now: i64) -> bool {
    &&& caller == r.authority@
    &&& now >= r.sale_end
    &&& r.is_active
    &&& r.randomness_committed
    &&& !r.winner_chosen
    &&& r.total_tickets_bought > 0
    &&& !zero_seed(r.randomness@)
    &&& r.ticket_ledger@.len() == r.total_tickets_bought
}

/// Select the winner: a pure, deterministic function of the committed seed
/// and the ticket ledger. The first 16 bytes of the seed are read as an
/// unsigned little-endian 128-bit integer `v`; the winner is the ledger
/// entry at index `v mod len(ticket_ledger)`. On success the winner fields
/// are set, the raffle becomes permanently inactive, and the returned
/// notification carries the outcome; all of this happens exactly once.
pub fn reveal_winner(raffle: &mut Raffle, caller: Pubkey, now: i64) -> (r: Result<
    WinnerChosen,
    ErrorCode,
>)
    requires
        old(raffle).wf(),
    ensures
        final(raffle).wf(),
        old(raffle).one_shot_monotone(*final(raffle)),
        r is Err ==> *final(raffle) == *old(raffle),
        r is Ok <==> reveal_allowed(*old(raffle), caller@, now),
        r == Err::<WinnerChosen, ErrorCode>(ErrorCode::NotAuthorized) <==> caller@ != old(
            raffle,
        ).authority@,
        r == Err::<WinnerChosen, ErrorCode>(ErrorCode::RaffleStillActive) <==> {
            &&& caller@ == old(raffle).authority@
            &&& now < old(raffle).sale_end
        },
        r == Err::<WinnerChosen, ErrorCode>(ErrorCode::RaffleNotActive) <==> {
            &&& caller@ == old(raffle).authority@
            &&& now >= old(raffle).sale_end
            &&& !old(raffle).is_active
        },
        r == Err::<WinnerChosen, ErrorCode>(ErrorCode::RandomnessNotCommitted) <==> {
            &&& caller@ == old(raffle).authority@
            &&& now >= old(raffle).sale_end
            &&& old(raffle).is_active
            &&& {
                ||| !old(raffle).randomness_committed
                ||| {
                    &&& old(raffle).randomness_committed
                    &&& !old(raffle).winner_chosen
                    &&& old(raffle).total_tickets_bought > 0
                    &&& zero_seed(old(raffle).randomness@)
                }
            }
        },
        r == Err::<WinnerChosen, ErrorCode>(ErrorCode::WinnerAlreadyChosen) <==> {
            &&& caller@ == old(raffle).authority@
            &&& now >= old(raffle).sale_end
            &&& old(raffle).is_active
            &&& old(raffle).randomness_committed
            &&& old(raffle).winner_chosen
        },
        r == Err::<WinnerChosen, ErrorCode>(ErrorCode::NoTicketsBought) <==> {
            &&& caller@ == old(raffle).authority@
            &&& now >= old(raffle).sale_end
            &&& old(raffle).is_active
            &&& old(raffle).randomness_committed
            &&& !old(raffle).winner_chosen
            &&& old(raffle).total_tickets_bought == 0
        },
        r matches Ok(ev) ==> {
            let n = old(raffle).total_tickets_bought as int;
            let wi = spec_winner_index(old(raffle).randomness@, n);
            &&& 0 <= wi < n
            &&& ev.raffle_id == old(raffle).raffle_id
            &&& ev.winner_index == wi
            &&& ev.winner == old(raffle).ticket_ledger@[wi]
            &&& final(raffle).winner == ev.winner
            &&& final(raffle).winner_index == Some(ev.winner_index)
            &&& final(raffle).winner_chosen
            &&& !final(raffle).is_active
            &&& final(raffle).claimed == old(raffle).claimed
            &&& old(raffle).same_config(*final(raffle))
            &&& old(raffle).same_tickets(*final(raffle))
            &&& old(raffle).same_randomness(*final(raffle))
        },
{
    if !crate::raffle::pubkey_eq(&caller, &raffle.authority) {
        return Err(ErrorCode::NotAuthorized);
    }
    if now < raffle.sale_end {
        return Err(ErrorCode::RaffleStillActive);
    }
    if !raffle.is_active {
        return Err(ErrorCode::RaffleNotActive);
    }
    if !raffle.randomness_committed {
        return Err(ErrorCode::RandomnessNotCommitted);
    }
    if raffle.winner_chosen {
        return Err(ErrorCode::WinnerAlreadyChosen);
    }
    if raffle.total_tickets_bought == 0 {
        return Err(ErrorCode::NoTicketsBought);
    }
    if crate::randomness::seed_is_zero(&raffle.randomness) {
        return Err(ErrorCode::RandomnessNotCommitted);
    }
    let n: usize = raffle.ticket_ledger.len();
    if n != raffle.total_tickets_bought as usize {
        // Unreachable under well-formedness; kept as a data-integrity
        // check, as every reveal re-verifies the ledger against the
        // counter.
        return Err(ErrorCode::InvalidTicketData);
    }

    // Read the first 16 seed bytes as an unsigned little-endian integer.
    let seed_prefix = slice_subrange(raffle.randomness.as_slice(), 0, 16);
    let random_value: u128 = u128_from_le_bytes(seed_prefix);

    let winner_index_wide: u128 = random_value % (n as u128);
    let winner_index: usize = winner_index_wide as usize;
    let winner_pubkey: Pubkey = raffle.ticket_ledger[winner_index];

    raffle.winner = winner_pubkey;
    raffle.winner_index = Some(winner_index as u64);
    raffle.winner_chosen = true;
    raffle.is_active = false;

    Ok(
        WinnerChosen {
            raffle_id: raffle.raffle_id,
            winner: winner_pubkey,
            winner_index: winner_index as u64,
        },
    )
}

} // verus!
