use vstd::prelude::*;
use crate::pubkey::Pubkey;

verus! {

/// A failure reported by a service outside the program, such as the token
/// ledger or the metadata registry. It is carried to the caller as it came.
#[derive(Clone, Copy, Debug, PartialEq, Eq, Structural)]
pub struct ExternalError {
    pub code: u32,
}

/// Why an operation that works through an outside service did not go
/// through: the program refused it, or the service did.
#[derive(Clone, Copy, Debug, PartialEq, Eq, Structural)]
pub enum Failure {
    Refused(crate::errors::BlinkError),
    External(ExternalError),
}

/// An order to the token ledger: move `amount` from one token account to
/// another, on the word of `authority`. The ledger moves all of it or none.
#[derive(Clone, Copy, Debug, PartialEq, Eq)]
pub struct Transfer {
    pub program: Pubkey,
    pub from: Pubkey,
    pub to: Pubkey,
    pub authority: Pubkey,
    pub amount: u64,
}

/// What an operation that works through outside services is told before
/// each of its steps.
#[derive(Clone, Copy, Debug, PartialEq, Eq, Structural)]
pub enum Event {
    /// The operation is asked for; nothing has been sent yet.
    Start,
    /// The service did what was last ordered.
    Succeeded,
    /// The service refused what was last ordered.
    Failed(ExternalError),
}

} // verus!
