use vstd::prelude::*;

verus! {

/// Why an operation on a wager was refused.
///
/// A refusal is total: the record, the balances and the escrow are as they
/// were before the call.
#[derive(Clone, Copy, Debug, PartialEq, Eq, Structural)]
pub enum BoardoverseError {
    /// The stake offered when opening a wager was zero.
    InvalidAmount,
    /// The ledger cannot move the amount the operation calls for.
    InsufficientFunds,
    /// The operation is not legal at the wager's current stage.
    WrongState,
    /// The counterparty seat is already taken.
    AlreadyFull,
    /// The initiator tried to join their own wager.
    SelfPlay,
    /// The caller is not the wager's arbiter.
    Unauthorized,
    /// The named winner is neither participant.
    InvalidWinner,
    /// The wager has already been resolved or cancelled.
    AlreadyTerminal,
}

impl BoardoverseError {
    /// The text of `message`, as a sequence of characters.
    pub open spec fn message_spec(self) -> Seq<char> {
        match self {
            BoardoverseError::InvalidAmount => "Invalid bet amount"@,
            BoardoverseError::InsufficientFunds => "Insufficient funds"@,
            BoardoverseError::WrongState => "Game is not in the state this operation needs"@,
            BoardoverseError::AlreadyFull => "Game is already full"@,
            BoardoverseError::SelfPlay => "Cannot play against yourself"@,
            BoardoverseError::Unauthorized => "Unauthorized arbiter"@,
            BoardoverseError::InvalidWinner => "Invalid winner"@,
            BoardoverseError::AlreadyTerminal => "Game is already finished"@,
        }
    }

    /// A short description for operators and logs.
    pub fn message(&self) -> (text: &'static str)
        ensures
            text@ == self.message_spec(),
    {
        match self {
            BoardoverseError::InvalidAmount => "Invalid bet amount",
            BoardoverseError::InsufficientFunds => "Insufficient funds",
            BoardoverseError::WrongState => "Game is not in the state this operation needs",
            BoardoverseError::AlreadyFull => "Game is already full",
            BoardoverseError::SelfPlay => "Cannot play against yourself",
            BoardoverseError::Unauthorized => "Unauthorized arbiter",
            BoardoverseError::InvalidWinner => "Invalid winner",
            BoardoverseError::AlreadyTerminal => "Game is already finished",
        }
    }
}

} // verus!
