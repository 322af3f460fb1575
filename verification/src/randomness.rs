use vstd::prelude::*;

use vstd::bytes::{spec_u128_to_le_bytes, u128_to_le_bytes};

use crate::errors::ErrorCode;
use crate::raffle::{Pubkey, Raffle};

verus! {

/// The value of `x` reinterpreted as an unsigned 128-bit integer in two's
/// complement, as the host's cast of its signed timestamp produces it.
pub open spec fn spec_i64_as_u128(x: i64) -> u128 {
    if x >= 0 {
        x as u128
    } else {
        (x as int + 0x1_0000_0000_0000_0000_0000_0000_0000_0000) as u128
    }
}

/// The deterministic mock seed: the timestamp times the raffle identifier
/// plus the host's execution counter, all in wrapping 128-bit arithmetic.
/// A pure function of its three inputs, so replaying the same inputs
/// always reproduces the same seed.
pub open spec fn mock_seed(now: i64, raffle_id: u64, slot: u64) -> u128 {
    vstd::wrapping::u128_specs::wrapping_add(
        vstd::wrapping::u128_specs::wrapping_mul(spec_i64_as_u128(now), raffle_id as u128),
        slot as u128,
    )
}

/// The seed buffer holds the all-zero "uncommitted" sentinel.
pub open spec fn zero_seed(s: Seq<u8>) -> bool {
    forall|i: int| 0 <= i < s.len() ==> s[i] == 0
}

/// Every precondition of `commit_randomness` that is independent of the
/// mode: the caller is the authority, the sale window has ended, the
/// raffle is active, and no seed has been committed yet.
pub open spec fn commit_allowed(r: Raffle, caller: Seq<u8>, now: i64) -> bool {
    &&& caller == r.authority@
    &&& now >= r.sale_end
    &&& r.is_active
    &&& !r.randomness_committed
}

/// Decide whether the seed buffer is still at its all-zero sentinel.
pub fn seed_is_zero(s: &[u8; 32]) -> (r: bool)
    ensures
        r == zero_seed(s@),
{
    let mut i: usize = 0;
    while i < 32
        invariant
            i <= 32,
            forall|j: int| 0 <= j < i ==> s@[j] == 0,
        decreases 32 - i,
    {
        if s[i] != 0 {
            assert(s@[i as int] != 0);
            return false;
        }
        i += 1;
    }
    true
}

/// Reinterpret the signed timestamp as an unsigned 128-bit value in two's
/// complement.
fn i64_as_u128(x: i64) -> (r: u128)
    ensures
        r == spec_i64_as_u128(x),
{
    if x >= 0 {
        x as u128
    } else {
        let magnitude: u128 = (-(x as i128)) as u128;
        u128::MAX - magnitude + 1
    }
}

/// Commit a 32-byte randomness seed to the raffle: the one-shot
/// `Uncommitted -> Committed` transition of the commit-reveal protocol.
/// Only the authority may commit, only after the sale window has ended
/// (so the seed cannot be chosen with knowledge of its consequences and
/// then used to gate participation), and only once.
///
/// With `use_mock` true, a deterministic, explicitly non-cryptographic
/// seed is derived from the clock snapshot (`now`, `slot`) and the raffle
/// identifier and written into the first 16 bytes of the buffer, the
/// remaining 16 bytes staying as they were; this path is for testing and
/// deterministic replay only. With `use_mock` false, `oracle_data` must
/// hold the randomness oracle's raw account bytes, at least 40 of them,
/// and bytes 8..40 are taken verbatim as the seed — a deliberate trust
/// boundary: the shape of the supplied account is checked, its provenance
/// is not.
pub fn commit_randomness(
    raffle: &mut Raffle,
    caller: Pubkey,
    use_mock: bool,
    now: i64,
    slot: u64,
    oracle_data: Option<&Vec<u8>>,
) -> (r: Result<(), ErrorCode>)
    requires
        old(raffle).wf(),
    ensures
        final(raffle).wf(),
        old(raffle).one_shot_monotone(*final(raffle)),
        r is Err ==> *final(raffle) == *old(raffle),
        r == Err::<(), ErrorCode>(ErrorCode::NotAuthorized) <==> caller@ != old(
            raffle,
        ).authority@,
        r == Err::<(), ErrorCode>(ErrorCode::RaffleStillActive) <==> {
            &&& caller@ == old(raffle).authority@
            &&& now < old(raffle).sale_end
        },
        r == Err::<(), ErrorCode>(ErrorCode::RaffleNotActive) <==> {
            &&& caller@ == old(raffle).authority@
            &&& now >= old(raffle).sale_end
            &&& !old(raffle).is_active
        },
        r == Err::<(), ErrorCode>(ErrorCode::RandomnessAlreadyRevealed) <==> {
            &&& caller@ == old(raffle).authority@
            &&& now >= old(raffle).sale_end
            &&& old(raffle).is_active
            &&& old(raffle).randomness_committed
        },
        use_mock ==> (r is Ok <==> commit_allowed(*old(raffle), caller@, now)),
        !use_mock ==> {
            r == Err::<(), ErrorCode>(ErrorCode::MissingRandomnessAccount) <==> {
                &&& commit_allowed(*old(raffle), caller@, now)
                &&& oracle_data is None
            }
        },
        !use_mock ==> {
            r == Err::<(), ErrorCode>(ErrorCode::InvalidRandomnessAccount) <==> {
                &&& commit_allowed(*old(raffle), caller@, now)
                &&& oracle_data matches Some(d) && d@.len() < 40
            }
        },
        !use_mock ==> {
            r is Ok <==> {
                &&& commit_allowed(*old(raffle), caller@, now)
                &&& oracle_data matches Some(d) && d@.len() >= 40
            }
        },
        r is Ok ==> {
            &&& final(raffle).randomness_committed
            &&& old(raffle).same_config(*final(raffle))
            &&& old(raffle).same_tickets(*final(raffle))
            &&& old(raffle).same_outcome(*final(raffle))
        },
        r is Ok && use_mock ==> {
            &&& final(raffle).randomness@.subrange(0, 16) == spec_u128_to_le_bytes(
                mock_seed(now, old(raffle).raffle_id, slot),
            )
            &&& final(raffle).randomness@.subrange(16, 32) == old(raffle).randomness@.subrange(
                16,
                32,
            )
        },
        r is Ok && !use_mock ==> (oracle_data matches Some(d) && final(raffle).randomness@ == d@
            .subrange(8, 40)),
{
    if !crate::raffle::pubkey_eq(&caller, &raffle.authority) {
        return Err(ErrorCode::NotAuthorized);
    }
    if now < raffle.sale_end {
        return Err(ErrorCode::RaffleStillActive);
    }
    if !raffle.is_active {
        return Err(ErrorCode::RaffleNotActive);
    }
    // One-shot guard: the seed is fixed exactly once and never rewritten.
    if raffle.randomness_committed {
        return Err(ErrorCode::RandomnessAlreadyRevealed);
    }

    if use_mock {
        let combined: u128 = i64_as_u128(now).wrapping_mul(raffle.raffle_id as u128).wrapping_add(
            slot as u128,
        );
        let bytes = u128_to_le_bytes(combined);
        let mut seed: [u8; 32] = raffle.randomness;
        let ghost orig = raffle.randomness@;
        let mut i: usize = 0;
        while i < 16
            invariant
                i <= 16,
                bytes@.len() == 16,
                forall|j: int| 0 <= j < i ==> seed@[j] == bytes@[j],
                forall|j: int| i <= j < 32 ==> seed@[j] == orig[j],
            decreases 16 - i,
        {
            seed[i] = bytes[i];
            i += 1;
        }
        raffle.randomness = seed;
        raffle.randomness_committed = true;
        proof {
            assert(raffle.randomness@.subrange(0, 16) =~= bytes@);
            assert(raffle.randomness@.subrange(16, 32) =~= orig.subrange(16, 32));
        }
        Ok(())
    } else {
        match oracle_data {
            None => Err(ErrorCode::MissingRandomnessAccount),
            Some(d) => {
                if d.len() < 40 {
                    return Err(ErrorCode::InvalidRandomnessAccount);
                }
                let mut seed: [u8; 32] = [0u8; 32];
                let mut i: usize = 0;
                while i < 32
                    invariant
                        i <= 32,
                        d@.len() >= 40,
                        forall|j: int| 0 <= j < i ==> seed@[j] == d@[j + 8],
                    decreases 32 - i,
                {
                    seed[i] = d[i + 8];
                    i += 1;
                }
                raffle.randomness = seed;
                raffle.randomness_committed = true;
                proof {
                    assert(raffle.randomness@ =~= d@.subrange(8, 40));
                }
                Ok(())
            },
        }
    }
}

} // verus!
