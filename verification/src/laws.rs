use vstd::prelude::*;

use crate::claim::claim_allowed;
use crate::raffle::{Pubkey, Raffle};
use crate::randomness::commit_allowed;
use crate::winner::{reveal_allowed, spec_winner_index};

verus! {

/// Ticket accounting invariant: in every well-formed raffle state the
/// ticket counter lies between zero and the capacity bound, and the
/// ledger length equals the counter exactly. `init_config` establishes
/// well-formedness and every operation's contract preserves it, so this
/// holds at every observable state.
pub proof fn lemma_ticket_accounting_invariant(r: Raffle)
    requires
        r.wf(),
    ensures
        0 <= r.total_tickets_bought <= r.max_tickets,
        r.ticket_ledger@.len() == r.total_tickets_bought,
{
}

/// The randomness commitment is one-shot: once `randomness_committed` is
/// true, no further commit is permitted, so the flag moves from false to
/// true at most once. Together with `one_shot_monotone` in every
/// operation's contract (the flag never moves from true to false), the
/// commitment is irreversible.
pub proof fn lemma_commit_one_shot(r: Raffle, caller: Seq<u8>, now: i64)
    requires
        r.randomness_committed,
    ensures
        !commit_allowed(r, caller, now),
{
}

/// Winner selection is one-shot: once the raffle is inactive — which a
/// successful reveal makes it, permanently — no further reveal is
/// permitted, so `winner_chosen` moves from false to true at most once
/// and the recorded winner never changes afterwards.
pub proof fn lemma_reveal_one_shot(r: Raffle, caller: Seq<u8>, now: i64)
    requires
        !r.is_active || r.winner_chosen,
    ensures
        !reveal_allowed(r, caller, now),
{
}

/// Claim settlement is one-shot: once `claimed` is true, no further claim
/// is permitted, so the flag moves from false to true at most once and no
/// second prize mint is ever instructed.
pub proof fn lemma_claim_one_shot(r: Raffle, claimer: Seq<u8>, now: i64)
    requires
        r.claimed,
    ensures
        !claim_allowed(r, claimer, now),
{
}

/// Winner selection is deterministic: two raffles with identical seed
/// buffers and identical ticket ledgers select the same winner index and
/// the same winner, whatever their other state.
pub proof fn lemma_winner_selection_deterministic(
    s1: Seq<u8>,
    s2: Seq<u8>,
    ledger1: Seq<Pubkey>,
    ledger2: Seq<Pubkey>,
)
    requires
        s1 == s2,
        ledger1 == ledger2,
        ledger1.len() > 0,
    ensures
        spec_winner_index(s1, ledger1.len() as int) == spec_winner_index(
            s2,
            ledger2.len() as int,
        ),
        ledger1[spec_winner_index(s1, ledger1.len() as int)] == ledger2[spec_winner_index(
            s2,
            ledger2.len() as int,
        )],
{
    lemma_winner_index_in_range(s1, ledger1.len() as int);
}

/// The winning index always falls inside the ledger.
pub proof fn lemma_winner_index_in_range(s: Seq<u8>, n: int)
    requires
        n > 0,
    ensures
        0 <= spec_winner_index(s, n) < n,
{
}

} // verus!
