use vstd::prelude::*;
use crate::errors::BlinkError;
use crate::ledger::ExternalError;
use crate::ledger::Failure;
use crate::ledger::Transfer;
use crate::pubkey::Pubkey;
use crate::store::RecordId;
use crate::store::Store;
use crate::store::StoreView;
use crate::text::check_length;
use crate::text::fits;
use crate::text::CURRENCY_MAX;
use crate::text::PAYMENT_DESCRIPTION_MAX;

verus! {

/// How far a payment has come.
#[derive(Clone, Copy, Debug, PartialEq, Eq, Structural)]
pub enum PaymentStatus {
    Pending,
    Completed,
    Failed,
    Refunded,
}

/// The record of a payment. It is stored as `Pending` and becomes
/// `Completed` when the ledger has moved the amount.
#[derive(Clone, Debug, PartialEq, Eq)]
pub struct Payment {
    pub payer: Pubkey,
    pub recipient: Pubkey,
    pub amount: u64,
    pub currency: String,
    pub description: String,
    pub status: PaymentStatus,
    pub timestamp: i64,
}

impl Payment {
    /// The texts of the payment are within their limits.
    pub open spec fn wf(self) -> bool {
        fits(self.currency@, CURRENCY_MAX as nat) && fits(
            self.description@,
            PAYMENT_DESCRIPTION_MAX as nat,
        )
    }
}

/// The accounts named by a request to pay.
#[derive(Clone, Copy, Debug, PartialEq, Eq)]
pub struct CreatePayment {
    pub payer: Pubkey,
    pub recipient: Pubkey,
    pub payer_token_account: Pubkey,
    pub recipient_token_account: Pubkey,
    pub token_program: Pubkey,
    pub system_program: Pubkey,
}

/// The transfer that a payment asks of the ledger: the amount goes from the
/// payer's token account to the recipient's, on the payer's word.
pub open spec fn payment_transfer(ctx: CreatePayment, amount: u64) -> Transfer {
    Transfer {
        program: ctx.token_program,
        from: ctx.payer_token_account,
        to: ctx.recipient_token_account,
        authority: ctx.payer,
        amount,
    }
}

/// The record of a new payment, pending, or the reason why the texts are
/// refused: a currency code of more than 10 characters, else a description
/// of more than 200.
pub open spec fn new_payment(
    ctx: CreatePayment,
    now: i64,
    amount: u64,
    currency: String,
    description: String,
) -> Result<Payment, BlinkError> {
    if !fits(currency@, CURRENCY_MAX as nat) {
        Err(BlinkError::InvalidCurrency)
    } else if !fits(description@, PAYMENT_DESCRIPTION_MAX as nat) {
        Err(BlinkError::DescriptionTooLong)
    } else {
        Ok(
            Payment {
                payer: ctx.payer,
                recipient: ctx.recipient,
                amount,
                currency,
                description,
                status: PaymentStatus::Pending,
                timestamp: now,
            },
        )
    }
}

/// The store after a payment was asked for: with the pending record under a
/// fresh id, or as before where the texts are refused.
pub open spec fn store_after_create_payment(
    pre: StoreView<Payment>,
    ctx: CreatePayment,
    now: i64,
    amount: u64,
    currency: String,
    description: String,
) -> StoreView<Payment> {
    match new_payment(ctx, now, amount, currency, description) {
        Ok(record) => pre.insert(record),
        Err(_) => pre,
    }
}

/// What asking for a payment returns: the id of the pending record and the
/// transfer to carry out, or the reason why the texts are refused.
pub open spec fn result_of_create_payment(
    pre: StoreView<Payment>,
    ctx: CreatePayment,
    now: i64,
    amount: u64,
    currency: String,
    description: String,
) -> Result<(RecordId, Transfer), BlinkError> {
    match new_payment(ctx, now, amount, currency, description) {
        Ok(_) => Ok((pre.fresh_id(), payment_transfer(ctx, amount))),
        Err(e) => Err(e),
    }
}

/// Checks the texts of a payment, stores its record as `Pending` under a
/// fresh id, stamped with `now`, and returns that id together with the
/// transfer that the ledger has to carry out. Where a text is refused,
/// nothing is stored. See [`settle_payment`].
pub fn create_payment(
    store: &mut Store<Payment>,
    ctx: &CreatePayment,
    now: i64,
    amount: u64,
    currency: String,
    description: String,
) -> (r: Result<(RecordId, Transfer), BlinkError>)
    ensures
        r == result_of_create_payment(old(store)@, *ctx, now, amount, currency, description),
        final(store)@ == store_after_create_payment(
            old(store)@,
            *ctx,
            now,
            amount,
            currency,
            description,
        ),
{
    match check_length(&currency, CURRENCY_MAX, BlinkError::InvalidCurrency) {
        Err(e) => {
            return Err(e);
        },
        Ok(_) => {},
    }
    match check_length(&description, PAYMENT_DESCRIPTION_MAX, BlinkError::DescriptionTooLong) {
        Err(e) => {
            return Err(e);
        },
        Ok(_) => {},
    }
    let record = Payment {
        payer: ctx.payer,
        recipient: ctx.recipient,
        amount,
        currency,
        description,
        status: PaymentStatus::Pending,
        timestamp: now,
    };
    let transfer = Transfer {
        program: ctx.token_program,
        from: ctx.payer_token_account,
        to: ctx.recipient_token_account,
        authority: ctx.payer,
        amount,
    };
    let id = store.insert(record);
    Ok((id, transfer))
}

/// What settling a payment returns. An unknown id is refused with
/// `PaymentNotFound`, a payment that is not pending with
/// `InvalidPaymentStatus`; else a refusal of the ledger is handed on as it
/// came.
pub open spec fn result_of_settle_payment(
    pre: StoreView<Payment>,
    id: RecordId,
    outcome: Result<(), ExternalError>,
) -> Result<(), Failure> {
    match pre.get(id) {
        None => Err(Failure::Refused(BlinkError::PaymentNotFound)),
        Some(payment) => if payment.status != PaymentStatus::Pending {
            Err(Failure::Refused(BlinkError::InvalidPaymentStatus))
        } else {
            match outcome {
                Err(e) => Err(Failure::External(e)),
                Ok(_) => Ok(()),
            }
        },
    }
}

/// The store after a payment was settled: the payment is `Completed` where
/// settling succeeds; else the store is as before, so that a payment whose
/// transfer failed stays `Pending`.
pub open spec fn store_after_settle_payment(
    pre: StoreView<Payment>,
    id: RecordId,
    outcome: Result<(), ExternalError>,
) -> StoreView<Payment> {
    if result_of_settle_payment(pre, id, outcome) is Ok {
        pre.replace(id, Payment { status: PaymentStatus::Completed, ..pre.records[id] })
    } else {
        pre
    }
}

/// Tells a pending payment how its transfer ended.
pub fn settle_payment(store: &mut Store<Payment>, id: RecordId, outcome: Result<(), ExternalError>) -> (r:
    Result<(), Failure>)
    ensures
        r == result_of_settle_payment(old(store)@, id, outcome),
        final(store)@ == store_after_settle_payment(old(store)@, id, outcome),
{
    let completed = match store.get(id) {
        None => {
            return Err(Failure::Refused(BlinkError::PaymentNotFound));
        },
        Some(payment) => {
            match payment.status {
                PaymentStatus::Pending => {},
                _ => {
                    return Err(Failure::Refused(BlinkError::InvalidPaymentStatus));
                },
            }
            match outcome {
                Err(e) => {
                    return Err(Failure::External(e));
                },
                Ok(_) => {},
            }
            Payment {
                payer: payment.payer,
                recipient: payment.recipient,
                amount: payment.amount,
                currency: payment.currency.clone(),
                description: payment.description.clone(),
                status: PaymentStatus::Completed,
                timestamp: payment.timestamp,
            }
        },
    };
    let _ = store.replace(id, completed);
    Ok(())
}

} // verus!
