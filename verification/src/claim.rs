use vstd::prelude::*;

use crate::errors::ErrorCode;
use crate::raffle::{Pubkey, Raffle};
use crate::randomness::zero_seed;

verus! {

/// Every precondition of `claim_prize`: the sale window has ended, the
/// prize is unclaimed, a winner has been chosen from a non-sentinel seed,
/// and the claimer is that winner.
pub open spec fn claim_allowed(r: Raffle, claimer: Seq<u8>, now: i64) -> bool {
    &&& now >= r.sale_end
    &&& !r.claimed
    &&& r.winner_chosen
    &&& !zero_seed(r.randomness@)
    &&& claimer == r.winner@
}

/// Settle the prize claim: the one-shot terminal transition of the raffle.
///
/// On success the host instructs the asset registrar to mint one prize
/// unit to `claimer` and to register its descriptive metadata, and
/// `claimed` becomes true, permanently; a second claim fails with
/// `AlreadyClaimed` and changes nothing.
///
/// The claimer must be the recorded winner: prize issuance is bound to the
/// identity that won, not to whichever authenticated caller invokes the
/// settlement. A claimer other than the winner is rejected with
/// `NotWinner`.
pub fn claim_prize(raffle: &mut Raffle, claimer: Pubkey, now: i64) -> (r: Result<(), ErrorCode>)
    requires
        old(raffle).wf(),
    ensures
        final(raffle).wf(),
        old(raffle).one_shot_monotone(*final(raffle)),
        r is Err ==> *final(raffle) == *old(raffle),
        r is Ok <==> claim_allowed(*old(raffle), claimer@, now),
        r == Err::<(), ErrorCode>(ErrorCode::RaffleStillActive) <==> now < old(raffle).sale_end,
        r == Err::<(), ErrorCode>(ErrorCode::AlreadyClaimed) <==> {
            &&& now >= old(raffle).sale_end
            &&& old(raffle).claimed
        },
        r == Err::<(), ErrorCode>(ErrorCode::WinnerNotChosen) <==> {
            &&& now >= old(raffle).sale_end
            &&& !old(raffle).claimed
            &&& !old(raffle).winner_chosen
        },
        r == Err::<(), ErrorCode>(ErrorCode::RandomnessNotCommitted) <==> {
            &&& now >= old(raffle).sale_end
            &&& !old(raffle).claimed
            &&& old(raffle).winner_chosen
            &&& zero_seed(old(raffle).randomness@)
        },
        r == Err::<(), ErrorCode>(ErrorCode::NotWinner) <==> {
            &&& now >= old(raffle).sale_end
            &&& !old(raffle).claimed
            &&& old(raffle).winner_chosen
            &&& !zero_seed(old(raffle).randomness@)
            &&& claimer@ != old(raffle).winner@
        },
        r is Ok ==> {
            &&& final(raffle).claimed
            &&& old(raffle).same_config(*final(raffle))
            &&& old(raffle).same_tickets(*final(raffle))
            &&& old(raffle).same_randomness(*final(raffle))
            &&& final(raffle).winner@ == old(raffle).winner@
            &&& final(raffle).winner_index == old(raffle).winner_index
            &&& final(raffle).winner_chosen == old(raffle).winner_chosen
            &&& final(raffle).is_active == old(raffle).is_active
        },
{
    if now < raffle.sale_end {
        return Err(ErrorCode::RaffleStillActive);
    }
    if raffle.claimed {
        return Err(ErrorCode::AlreadyClaimed);
    }
    if !raffle.winner_chosen {
        return Err(ErrorCode::WinnerNotChosen);
    }
    if crate::randomness::seed_is_zero(&raffle.randomness) {
        return Err(ErrorCode::RandomnessNotCommitted);
    }
    // Bind settlement to the recorded winner, not to the caller at hand.
    if !crate::raffle::pubkey_eq(&claimer, &raffle.winner) {
        return Err(ErrorCode::NotWinner);
    }

    raffle.claimed = true;
    Ok(())
}

} // verus!
