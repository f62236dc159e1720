use vstd::prelude::*;
use crate::errors::BlinkError;
use crate::ledger::ExternalError;
use crate::ledger::Transfer;
use crate::pubkey::Pubkey;
use crate::store::RecordId;
use crate::store::Store;
use crate::text::check_length;
use crate::text::fits;
use crate::text::CURRENCY_MAX;
use crate::text::MESSAGE_MAX;

verus! {

/// The record of a donation. Once stored it is never changed.
#[derive(Clone, Debug, PartialEq, Eq)]
pub struct Donation {
    pub donor: Pubkey,
    pub recipient: Pubkey,
    pub amount: u64,
    pub currency: String,
    pub message: String,
    pub timestamp: i64,
}

impl Donation {
    /// The texts of the donation are within their limits.
    pub open spec fn wf(self) -> bool {
        fits(self.currency@, CURRENCY_MAX as nat) && fits(self.message@, MESSAGE_MAX as nat)
    }
}

/// The accounts named by a request to donate.
#[derive(Clone, Copy, Debug, PartialEq, Eq)]
pub struct CreateDonation {
    pub donor: Pubkey,
    pub recipient: Pubkey,
    pub donor_token_account: Pubkey,
    pub recipient_token_account: Pubkey,
    pub token_program: Pubkey,
    pub system_program: Pubkey,
}

/// A donation whose record is made but not stored yet: the ledger has to
/// move the amount first.
#[derive(Clone, Debug, PartialEq, Eq)]
pub struct PendingDonation {
    pub record: Donation,
    pub transfer: Transfer,
}

/// The transfer that a donation asks of the ledger: the amount goes from the
/// donor's token account to the recipient's, on the donor's word.
pub open spec fn donation_transfer(ctx: CreateDonation, amount: u64) -> Transfer {
    Transfer {
        program: ctx.token_program,
        from: ctx.donor_token_account,
        to: ctx.recipient_token_account,
        authority: ctx.donor,
        amount,
    }
}

/// The record of a new donation, or the reason why the texts are refused: a
/// currency code of more than 10 characters, else a message of more than
/// 200.
pub open spec fn new_donation(
    ctx: CreateDonation,
    now: i64,
    amount: u64,
    currency: String,
    message: String,
) -> Result<Donation, BlinkError> {
    if !fits(currency@, CURRENCY_MAX as nat) {
        Err(BlinkError::InvalidCurrency)
    } else if !fits(message@, MESSAGE_MAX as nat) {
        Err(BlinkError::MessageTooLong)
    } else {
        Ok(
            Donation {
                donor: ctx.donor,
                recipient: ctx.recipient,
                amount,
                currency,
                message,
                timestamp: now,
            },
        )
    }
}

/// Checks the texts of a donation and makes its record, stamped with `now`,
/// together with the transfer that the ledger has to carry out. Nothing is
/// stored: see [`finalize_donation`].
pub fn create_donation(ctx: &CreateDonation, now: i64, amount: u64, currency: String, message: String) -> (r:
    Result<PendingDonation, BlinkError>)
    ensures
        new_donation(*ctx, now, amount, currency, message) matches Err(e) ==> r == Err::<
            PendingDonation,
            BlinkError,
        >(e),
        new_donation(*ctx, now, amount, currency, message) matches Ok(record) ==> r == Ok::<
            PendingDonation,
            BlinkError,
        >(PendingDonation { record, transfer: donation_transfer(*ctx, amount) }),
{
    match check_length(&currency, CURRENCY_MAX, BlinkError::InvalidCurrency) {
        Err(e) => {
            return Err(e);
        },
        Ok(_) => {},
    }
    match check_length(&message, MESSAGE_MAX, BlinkError::MessageTooLong) {
        Err(e) => {
            return Err(e);
        },
        Ok(_) => {},
    }
    let record = Donation {
        donor: ctx.donor,
        recipient: ctx.recipient,
        amount,
        currency,
        message,
        timestamp: now,
    };
    let transfer = Transfer {
        program: ctx.token_program,
        from: ctx.donor_token_account,
        to: ctx.recipient_token_account,
        authority: ctx.donor,
        amount,
    };
    Ok(PendingDonation { record, transfer })
}

/// Ends a donation. Where the ledger moved the amount, the record is stored
/// under a fresh id, which is returned. Where the ledger refused, the store
/// stays as it is and the refusal is returned as it came.
pub fn finalize_donation(
    store: &mut Store<Donation>,
    pending: PendingDonation,
    outcome: Result<(), ExternalError>,
) -> (r: Result<RecordId, ExternalError>)
    ensures
        r == old(store)@.settled_id(outcome),
        final(store)@ == old(store)@.settle(pending.record, outcome),
{
    store.settle(pending.record, outcome)
}

} // verus!
