use vstd::prelude::*;

verus! {

/// A participant identity: 32 raw bytes, as the surrounding execution
/// environment presents caller identities. The core only stores and
/// compares these; it never interprets them.
pub type Pubkey = [u8; 32];

/// One raffle record. Created once by `init_config`, then mutated in place
/// by the buy / commit / reveal / claim operations, each permitted exactly
/// once per one-shot flag it sets. All mutation goes through those
/// operations; the well-formedness predicate `wf` is established at
/// creation and preserved by every one of them.
#[derive(Debug)]
pub struct Raffle {
    /// Identity permitted to commit randomness and reveal the winner;
    /// immutable after creation.
    pub authority: Pubkey,
    /// Opaque numeric identifier of this raffle.
    pub raffle_id: u64,
    /// Display string, at most 50 characters.
    pub name: String,
    /// Timestamp at which the sale window opens (informational).
    pub sale_start: u64,
    /// Timestamp at which the sale window closes; gates commit, reveal and
    /// claim.
    pub sale_end: i64,
    /// Unit price per ticket (informational to this core).
    pub price: u64,
    /// Hard capacity bound on tickets; at most `MAX_LEDGER_CAPACITY`.
    pub max_tickets: u64,
    /// Monotonically increasing ticket counter; always equals the ledger
    /// length and never exceeds `max_tickets`.
    pub total_tickets_bought: u64,
    /// Append-only ordered sequence of buyer identities.
    pub ticket_ledger: Vec<Pubkey>,
    /// 32-byte seed buffer; the all-zero value is the "uncommitted"
    /// sentinel.
    pub randomness: [u8; 32],
    /// Set exactly once by a successful commit; never cleared.
    pub randomness_committed: bool,
    /// The selected winner; meaningful only once `winner_chosen` is true.
    pub winner: Pubkey,
    /// Index of the winner in the ticket ledger; `None` until a winner is
    /// chosen.
    pub winner_index: Option<u64>,
    /// Set exactly once by a successful reveal; never cleared.
    pub winner_chosen: bool,
    /// True from creation until winner selection, then false permanently.
    pub is_active: bool,
    /// Set exactly once by a successful claim; terminal.
    pub claimed: bool,
    /// Informational prize quantity, fixed at creation.
    pub prize_amount: u64,
}

/// The ticket ledger's storage capacity in this configuration. A raffle's
/// `max_tickets` is declared at creation and may not exceed it.
pub const MAX_LEDGER_CAPACITY: u64 = 100;

/// Maximum length of a raffle's display name.
pub const MAX_NAME_LEN: usize = 50;

/// Fixed prize quantity recorded on every new raffle.
pub const PRIZE_AMOUNT: u64 = 10;

impl Raffle {
    /// Well-formedness: the ticket counter is capacity-bounded and the
    /// ledger length matches it exactly. Established by `init_config` and
    /// preserved by every operation.
    pub open spec fn wf(self) -> bool {
        &&& self.max_tickets <= MAX_LEDGER_CAPACITY
        &&& self.total_tickets_bought <= self.max_tickets
        &&& self.ticket_ledger@.len() == self.total_tickets_bought
    }

    /// The fields fixed at creation are the same in `self` and `other`.
    pub open spec fn same_config(self, other: Raffle) -> bool {
        &&& self.authority@ == other.authority@
        &&& self.raffle_id == other.raffle_id
        &&& self.name@ == other.name@
        &&& self.sale_start == other.sale_start
        &&& self.sale_end == other.sale_end
        &&& self.price == other.price
        &&& self.max_tickets == other.max_tickets
        &&& self.prize_amount == other.prize_amount
    }

    /// The ticket ledger and its counter are the same in `self` and
    /// `other`.
    pub open spec fn same_tickets(self, other: Raffle) -> bool {
        &&& self.total_tickets_bought == other.total_tickets_bought
        &&& self.ticket_ledger@ == other.ticket_ledger@
    }

    /// The randomness buffer and its one-shot flag are the same in `self`
    /// and `other`.
    pub open spec fn same_randomness(self, other: Raffle) -> bool {
        &&& self.randomness@ == other.randomness@
        &&& self.randomness_committed == other.randomness_committed
    }

    /// The winner fields, the activity flag and the claim flag are the same
    /// in `self` and `other`.
    pub open spec fn same_outcome(self, other: Raffle) -> bool {
        &&& self.winner@ == other.winner@
        &&& self.winner_index == other.winner_index
        &&& self.winner_chosen == other.winner_chosen
        &&& self.is_active == other.is_active
        &&& self.claimed == other.claimed
    }

    /// The one-shot flags only ever move from false to true, and once a
    /// winner is recorded it never changes. Every operation's contract
    /// includes this relation between the record before and after the call.
    pub open spec fn one_shot_monotone(self, other: Raffle) -> bool {
        &&& self.randomness_committed ==> other.randomness_committed
        &&& self.winner_chosen ==> other.winner_chosen
        &&& self.claimed ==> other.claimed
        &&& !self.is_active ==> !other.is_active
        &&& self.winner_chosen ==> {
            &&& other.winner@ == self.winner@
            &&& other.winner_index == self.winner_index
        }
    }
}

/// Compare two identities byte for byte.
pub fn pubkey_eq(a: &Pubkey, b: &Pubkey) -> (r: bool)
    ensures
        r == (a@ == b@),
{
    let mut i: usize = 0;
    while i < 32
        invariant
            i <= 32,
            forall|j: int| 0 <= j < i ==> a@[j] == b@[j],
        decreases 32 - i,
    {
        if a[i] != b[i] {
            assert(a@[i as int] != b@[i as int]);
            return false;
        }
        i += 1;
    }
    proof {
        assert(a@ =~= b@);
    }
    true
}

/// Create a new raffle record: all counters zero, all one-shot flags
/// false, the randomness buffer at its all-zero sentinel, and the raffle
/// active. The creating caller becomes the recorded authority.
///
/// The name is bounded by `MAX_NAME_LEN` and the capacity by
/// `MAX_LEDGER_CAPACITY`; both bounds are declared here and enforced by
/// every later operation.
pub fn init_config(
    authority: Pubkey,
    raffle_id: u64,
    name: String,
    sale_start: u64,
    sale_end: i64,
    price: u64,
    max_tickets: u64,
) -> (r: Raffle)
    requires
        name@.len() <= MAX_NAME_LEN,
        max_tickets <= MAX_LEDGER_CAPACITY,
    ensures
        r.wf(),
        r.authority@ == authority@,
        r.raffle_id == raffle_id,
        r.name@ == name@,
        r.sale_start == sale_start,
        r.sale_end == sale_end,
        r.price == price,
        r.max_tickets == max_tickets,
        r.total_tickets_bought == 0,
        r.ticket_ledger@ == Seq::<Pubkey>::empty(),
        forall|i: int| 0 <= i < 32 ==> r.randomness@[i] == 0u8,
        !r.randomness_committed,
        r.winner_index is None,
        !r.winner_chosen,
        r.is_active,
        !r.claimed,
        r.prize_amount == PRIZE_AMOUNT,
{
    let ledger: Vec<Pubkey> = Vec::new();
    proof {
        assert(ledger@ =~= Seq::<Pubkey>::empty());
    }
    Raffle {
        authority,
        raffle_id,
        name,
        sale_start,
        sale_end,
        price,
        max_tickets,
        total_tickets_bought: 0,
        ticket_ledger: ledger,
        randomness: [0u8; 32],
        randomness_committed: false,
        winner: [0u8; 32],
        winner_index: None,
        winner_chosen: false,
        is_active: true,
        claimed: false,
        prize_amount: PRIZE_AMOUNT,
    }
}

} // verus!
