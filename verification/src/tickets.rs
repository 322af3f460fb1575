use vstd::prelude::*;

use crate::errors::ErrorCode;
use crate::raffle::{Pubkey, Raffle};

verus! {

/// Buy one ticket for `caller`.
///
/// On success the call returns the fresh ticket sub-identifier — the value
/// of the counter before the purchase — under which the host instructs the
/// asset registrar to mint exactly one ticket unit to `caller` (each ticket
/// is a distinct, independently addressable unit). `caller` is appended to
/// the ledger and the counter incremented by one with checked arithmetic.
///
/// No per-buyer cap is enforced: a caller may buy any number of tickets up
/// to the global capacity. The surrounding execution environment makes the
/// mint and the append one atomic unit of work: if either fails, no
/// partial mutation survives.
pub fn buy_tickets(raffle: &mut Raffle, caller: Pubkey) -> (r: Result<u64, ErrorCode>)
    requires
        old(raffle).wf(),
    ensures
        final(raffle).wf(),
        old(raffle).one_shot_monotone(*final(raffle)),
        r is Err ==> *final(raffle) == *old(raffle),
        r == Err::<u64, ErrorCode>(ErrorCode::NoTicketsLeft) <==> old(raffle).total_tickets_bought
            >= old(raffle).max_tickets,
        r is Ok <==> old(raffle).total_tickets_bought < old(raffle).max_tickets,
        r matches Ok(ticket_id) ==> {
            &&& ticket_id == old(raffle).total_tickets_bought
            &&& final(raffle).total_tickets_bought == old(raffle).total_tickets_bought + 1
            &&& final(raffle).ticket_ledger@ == old(raffle).ticket_ledger@.push(caller)
            &&& old(raffle).same_config(*final(raffle))
            &&& old(raffle).same_randomness(*final(raffle))
            &&& old(raffle).same_outcome(*final(raffle))
        },
{
    // Capacity must be available.
    if !(raffle.total_tickets_bought < raffle.max_tickets) {
        return Err(ErrorCode::NoTicketsLeft);
    }

    // The fresh sub-identifier distinguishing the unit the registrar mints.
    let ticket_id = raffle.total_tickets_bought;

    raffle.ticket_ledger.push(caller);

    match raffle.total_tickets_bought.checked_add(1) {
        Some(n) => {
            raffle.total_tickets_bought = n;
            Ok(ticket_id)
        },
        None => {
            // Unreachable: the counter is bounded by the ledger capacity.
            Err(ErrorCode::Overflow)
        },
    }
}

} // verus!
