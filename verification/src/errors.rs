use vstd::prelude::*;

verus! {

/// Failure taxonomy of the raffle core. Every operation either completes in
/// full or returns one of these kinds with the record left exactly as it
/// was before the call.
///
/// - Authorization: `NotAuthorized` (caller is not the recorded authority),
///   `NotWinner` (claimer is not the recorded winner).
/// - Timing: `RaffleStillActive` (attempted before the sale-end deadline).
/// - State: `RaffleNotActive`, `RandomnessAlreadyRevealed`,
///   `RandomnessNotCommitted`, `WinnerAlreadyChosen`, `WinnerNotChosen`,
///   `AlreadyClaimed`, `NoTicketsBought`.
/// - Capacity/arithmetic: `NoTicketsLeft`, `Overflow`.
/// - Data integrity: `MissingRandomnessAccount`, `InvalidRandomnessAccount`,
///   `InvalidTicketData`.
///
/// A per-buyer ticket cap is deliberately not enforced: buyers may purchase
/// any number of tickets up to the global capacity, so no error kind for a
/// per-buyer limit exists here.
#[derive(Clone, Copy, Debug, PartialEq, Eq, Structural)]
pub enum ErrorCode {
    /// The raffle is no longer (or not yet) active.
    RaffleNotActive,
    /// All tickets have been sold.
    NoTicketsLeft,
    /// The ticket counter would overflow.
    Overflow,
    /// Randomness has already been committed to this raffle.
    RandomnessAlreadyRevealed,
    /// Randomness has not been committed, or is still the zero sentinel.
    RandomnessNotCommitted,
    /// The caller is not the raffle's recorded authority.
    NotAuthorized,
    /// The sale window has not ended yet.
    RaffleStillActive,
    /// A winner has already been selected.
    WinnerAlreadyChosen,
    /// No winner has been selected yet.
    WinnerNotChosen,
    /// No tickets were bought, so no winner can be drawn.
    NoTicketsBought,
    /// The ticket ledger length does not match the ticket counter.
    InvalidTicketData,
    /// The randomness oracle data is too short.
    InvalidRandomnessAccount,
    /// The caller is not the recorded winner.
    NotWinner,
    /// The prize has already been claimed.
    AlreadyClaimed,
    /// No randomness oracle account was supplied in real mode.
    MissingRandomnessAccount,
}

impl ErrorCode {
    /// A short human-readable description of the error kind.
    pub fn describe(&self) -> (s: &'static str)
        ensures
            s@.len() > 0,
    {
        let s: &'static str = match self {
            ErrorCode::RaffleNotActive => "Raffle not active",
            ErrorCode::NoTicketsLeft => "No tickets left",
            ErrorCode::Overflow => "Overflow",
            ErrorCode::RandomnessAlreadyRevealed => "Randomness already committed",
            ErrorCode::RandomnessNotCommitted => "Randomness not committed",
            ErrorCode::NotAuthorized => "Not authorized",
            ErrorCode::RaffleStillActive => "Raffle still active",
            ErrorCode::WinnerAlreadyChosen => "Winner already chosen",
            ErrorCode::WinnerNotChosen => "Winner not chosen",
            ErrorCode::NoTicketsBought => "No tickets bought",
            ErrorCode::InvalidTicketData => "Invalid ticket data",
            ErrorCode::InvalidRandomnessAccount => "Invalid randomness account",
            ErrorCode::NotWinner => "Caller is not the winner",
            ErrorCode::AlreadyClaimed => "Already claimed",
            ErrorCode::MissingRandomnessAccount => "Missing randomness account",
        };
        proof {
            reveal_strlit("Raffle not active");
            reveal_strlit("No tickets left");
            reveal_strlit("Overflow");
            reveal_strlit("Randomness already committed");
            reveal_strlit("Randomness not committed");
            reveal_strlit("Not authorized");
            reveal_strlit("Raffle still active");
            reveal_strlit("Winner already chosen");
            reveal_strlit("Winner not chosen");
            reveal_strlit("No tickets bought");
            reveal_strlit("Invalid ticket data");
            reveal_strlit("Invalid randomness account");
            reveal_strlit("Caller is not the winner");
            reveal_strlit("Already claimed");
            reveal_strlit("Missing randomness account");
        }
        s
    }
}

} // verus!
