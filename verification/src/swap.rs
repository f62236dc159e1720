use vstd::prelude::*;
use crate::errors::BlinkError;
use crate::ledger::Event;
use crate::ledger::ExternalError;
use crate::ledger::Transfer;
use crate::math::checked_add;
use crate::math::checked_div;
use crate::math::checked_mul;
use crate::math::checked_sub;
use crate::pubkey::Pubkey;
use crate::store::RecordId;
use crate::store::Store;
use crate::store::StoreView;

verus! {

/// The number of parts that a fee is counted in: a fee of 3 is 3 parts in
/// 1000 of the amount paid in.
pub const FEE_DENOMINATOR: u64 = 1000;

/// The record of a swap: the intent to move `amount_a` of token A and
/// `amount_b` of token B. It is created with `executed_at` unset and is
/// executed at most once.
#[derive(Clone, Copy, Debug, PartialEq, Eq)]
pub struct Swap {
    pub owner: Pubkey,
    pub token_a: Pubkey,
    pub token_b: Pubkey,
    pub amount_a: u64,
    pub amount_b: u64,
    pub fee: u64,
    pub created_at: i64,
    pub executed_at: Option<i64>,
}

impl Swap {
    /// A swap that is marked as executed was executed no earlier than it was
    /// created.
    pub open spec fn wf(self) -> bool {
        self.executed_at matches Some(at) ==> self.created_at <= at
    }
}

/// The accounts named by a request to create a swap.
#[derive(Clone, Copy, Debug, PartialEq, Eq)]
pub struct CreateSwap {
    pub owner: Pubkey,
    pub token_a: Pubkey,
    pub token_b: Pubkey,
    pub token_program: Pubkey,
    pub system_program: Pubkey,
}

/// The swap and the accounts named by a request to execute it.
#[derive(Clone, Copy, Debug, PartialEq, Eq)]
pub struct ExecuteSwap {
    pub swap: RecordId,
    pub owner: Pubkey,
    pub token_a_source: Pubkey,
    pub token_a_destination: Pubkey,
    pub token_b_source: Pubkey,
    pub token_b_destination: Pubkey,
    pub token_program: Pubkey,
}

/// The record of a new swap.
pub open spec fn new_swap(ctx: CreateSwap, now: i64, amount_a: u64, amount_b: u64, fee: u64) -> Swap {
    Swap {
        owner: ctx.owner,
        token_a: ctx.token_a,
        token_b: ctx.token_b,
        amount_a,
        amount_b,
        fee,
        created_at: now,
        executed_at: None,
    }
}

/// Records the intent to swap, owned by `ctx.owner` and stamped with `now`,
/// under a fresh id, which is returned. Nothing is transferred and the swap
/// is not executed. This never fails.
pub fn create_swap(
    store: &mut Store<Swap>,
    ctx: &CreateSwap,
    now: i64,
    amount_a: u64,
    amount_b: u64,
    fee: u64,
) -> (r: Result<RecordId, BlinkError>)
    ensures
        r == Ok::<RecordId, BlinkError>(old(store)@.fresh_id()),
        final(store)@ == old(store)@.insert(new_swap(*ctx, now, amount_a, amount_b, fee)),
{
    let record = Swap {
        owner: ctx.owner,
        token_a: ctx.token_a,
        token_b: ctx.token_b,
        amount_a,
        amount_b,
        fee,
        created_at: now,
        executed_at: None,
    };
    Ok(store.insert(record))
}

/// Where one execution of a swap stands.
#[derive(Clone, Copy, Debug, PartialEq, Eq, Structural)]
pub enum SwapPhase {
    /// Nothing has been sent.
    Ready,
    /// The transfer of token A has been ordered.
    LegA,
    /// Token A has moved and the transfer of token B has been ordered.
    LegB,
}

/// What the caller has to do after a step of an execution.
#[derive(Clone, Copy, Debug, PartialEq, Eq)]
pub enum SwapAction {
    /// Carry out this transfer and report how it ended.
    Transfer(Transfer),
    /// Both legs have moved and the swap is marked as executed.
    Executed,
    /// The program refuses; nothing was marked.
    Rejected(BlinkError),
    /// The ledger refused the first leg: nothing has moved.
    Failed(ExternalError),
    /// The ledger refused the second leg after the first had moved. The swap
    /// is not marked as executed and may be tried again.
    PartiallySettled(ExternalError),
}

/// The first leg of a swap: `amount_a` from the source of token A to its
/// destination, on the owner's word.
pub open spec fn leg_a(ctx: ExecuteSwap, swap: Swap) -> Transfer {
    Transfer {
        program: ctx.token_program,
        from: ctx.token_a_source,
        to: ctx.token_a_destination,
        authority: ctx.owner,
        amount: swap.amount_a,
    }
}

/// The second leg of a swap: `amount_b` from the source of token B to its
/// destination, on the owner's word.
pub open spec fn leg_b(ctx: ExecuteSwap, swap: Swap) -> Transfer {
    Transfer {
        program: ctx.token_program,
        from: ctx.token_b_source,
        to: ctx.token_b_destination,
        authority: ctx.owner,
        amount: swap.amount_b,
    }
}

/// Why a request to execute is refused whatever the phase and the event, if
/// it is: the swap is unknown, the caller is not its owner, or it has been
/// executed already.
pub open spec fn execution_refusal(pre: StoreView<Swap>, ctx: ExecuteSwap) -> Option<BlinkError> {
    match pre.get(ctx.swap) {
        None => Some(BlinkError::SwapNotFound),
        Some(swap) => if swap.owner != ctx.owner {
            Some(BlinkError::Unauthorized)
        } else if swap.executed_at is Some {
            Some(BlinkError::InvalidSwapParameters)
        } else {
            None
        },
    }
}

/// The phase after a step of an execution.
pub open spec fn phase_after_step(pre: StoreView<Swap>, ctx: ExecuteSwap, phase: SwapPhase, event: Event) -> SwapPhase {
    if execution_refusal(pre, ctx) is Some {
        SwapPhase::Ready
    } else {
        match (phase, event) {
            (SwapPhase::Ready, Event::Start) => SwapPhase::LegA,
            (SwapPhase::LegA, Event::Succeeded) => SwapPhase::LegB,
            _ => SwapPhase::Ready,
        }
    }
}

/// What the caller has to do after a step of an execution. The legs are
/// ordered one after the other, token A first; an event that does not belong
/// to the phase is refused with `InvalidSwapParameters`.
pub open spec fn action_of_step(pre: StoreView<Swap>, ctx: ExecuteSwap, phase: SwapPhase, event: Event) -> SwapAction {
    match execution_refusal(pre, ctx) {
        Some(e) => SwapAction::Rejected(e),
        None => match (phase, event) {
            (SwapPhase::Ready, Event::Start) => SwapAction::Transfer(leg_a(ctx, pre.records[ctx.swap])),
            (SwapPhase::LegA, Event::Succeeded) => SwapAction::Transfer(
                leg_b(ctx, pre.records[ctx.swap]),
            ),
            (SwapPhase::LegA, Event::Failed(e)) => SwapAction::Failed(e),
            (SwapPhase::LegB, Event::Succeeded) => SwapAction::Executed,
            (SwapPhase::LegB, Event::Failed(e)) => SwapAction::PartiallySettled(e),
            _ => SwapAction::Rejected(BlinkError::InvalidSwapParameters),
        },
    }
}

/// The store after a step of an execution: the swap is marked as executed at
/// `now` by the step that learns that the second leg has moved, and by no
/// other.
pub open spec fn store_after_step(
    pre: StoreView<Swap>,
    ctx: ExecuteSwap,
    now: i64,
    phase: SwapPhase,
    event: Event,
) -> StoreView<Swap> {
    if execution_refusal(pre, ctx) is None && phase == SwapPhase::LegB && event == Event::Succeeded {
        pre.replace(ctx.swap, Swap { executed_at: Some(now), ..pre.records[ctx.swap] })
    } else {
        pre
    }
}

/// One step of the execution of a swap. The caller starts with the phase
/// `Ready` and the event `Start`, carries out each transfer that is ordered,
/// and comes back with the phase that was returned and the event that tells
/// how the transfer ended, until the action is no transfer.
pub fn execute_swap(
    store: &mut Store<Swap>,
    ctx: &ExecuteSwap,
    now: i64,
    phase: SwapPhase,
    event: Event,
) -> (r: (SwapPhase, SwapAction))
    ensures
        r.0 == phase_after_step(old(store)@, *ctx, phase, event),
        r.1 == action_of_step(old(store)@, *ctx, phase, event),
        final(store)@ == store_after_step(old(store)@, *ctx, now, phase, event),
{
    let swap: Swap = match store.get(ctx.swap) {
        None => {
            return (SwapPhase::Ready, SwapAction::Rejected(BlinkError::SwapNotFound));
        },
        Some(swap) => *swap,
    };
    if swap.owner != ctx.owner {
        return (SwapPhase::Ready, SwapAction::Rejected(BlinkError::Unauthorized));
    }
    if swap.executed_at.is_some() {
        return (SwapPhase::Ready, SwapAction::Rejected(BlinkError::InvalidSwapParameters));
    }
    match (phase, event) {
        (SwapPhase::Ready, Event::Start) => {
            let transfer = Transfer {
                program: ctx.token_program,
                from: ctx.token_a_source,
                to: ctx.token_a_destination,
                authority: ctx.owner,
                amount: swap.amount_a,
            };
            (SwapPhase::LegA, SwapAction::Transfer(transfer))
        },
        (SwapPhase::LegA, Event::Succeeded) => {
            let transfer = Transfer {
                program: ctx.token_program,
                from: ctx.token_b_source,
                to: ctx.token_b_destination,
                authority: ctx.owner,
                amount: swap.amount_b,
            };
            (SwapPhase::LegB, SwapAction::Transfer(transfer))
        },
        (SwapPhase::LegA, Event::Failed(e)) => (SwapPhase::Ready, SwapAction::Failed(e)),
        (SwapPhase::LegB, Event::Succeeded) => {
            let executed = Swap {
                owner: swap.owner,
                token_a: swap.token_a,
                token_b: swap.token_b,
                amount_a: swap.amount_a,
                amount_b: swap.amount_b,
                fee: swap.fee,
                created_at: swap.created_at,
                executed_at: Some(now),
            };
            let _ = store.replace(ctx.swap, executed);
            (SwapPhase::Ready, SwapAction::Executed)
        },
        (SwapPhase::LegB, Event::Failed(e)) => (SwapPhase::Ready, SwapAction::PartiallySettled(e)),
        _ => (SwapPhase::Ready, SwapAction::Rejected(BlinkError::InvalidSwapParameters)),
    }
}

/// The amount paid in, in thousandths, after the fee was taken from it.
pub open spec fn amount_in_with_fee(amount_in: u64, fee: u64) -> int {
    amount_in * (FEE_DENOMINATOR - fee)
}

/// The dividend of the constant-product formula.
pub open spec fn swap_numerator(amount_in: u64, reserve_out: u64, fee: u64) -> int {
    amount_in_with_fee(amount_in, fee) * reserve_out
}

/// The divisor of the constant-product formula.
pub open spec fn swap_denominator(amount_in: u64, reserve_in: u64, fee: u64) -> int {
    reserve_in * FEE_DENOMINATOR + amount_in_with_fee(amount_in, fee)
}

/// Whether every step of the formula stays within 64 bits: the fee is at
/// most 1000, and the amount with fee, the dividend, the reserve in
/// thousandths and the divisor all fit.
pub open spec fn swap_in_range(amount_in: u64, reserve_in: u64, reserve_out: u64, fee: u64) -> bool {
    &&& fee <= FEE_DENOMINATOR
    &&& amount_in_with_fee(amount_in, fee) <= u64::MAX
    &&& swap_numerator(amount_in, reserve_out, fee) <= u64::MAX
    &&& reserve_in * FEE_DENOMINATOR <= u64::MAX
    &&& swap_denominator(amount_in, reserve_in, fee) <= u64::MAX
}

/// The amount paid out for `amount_in` by a pool with the given reserves,
/// by the constant-product formula with the fee taken from the amount paid
/// in, rounded down. An amount or a reserve of zero is refused with
/// `InvalidSwapParameters`; a step that leaves 64 bits with `MathOverflow`.
pub open spec fn swap_amount(amount_in: u64, reserve_in: u64, reserve_out: u64, fee: u64) -> Result<
    u64,
    BlinkError,
> {
    if amount_in == 0 || reserve_in == 0 || reserve_out == 0 {
        Err(BlinkError::InvalidSwapParameters)
    } else if !swap_in_range(amount_in, reserve_in, reserve_out, fee) {
        Err(BlinkError::MathOverflow)
    } else {
        Ok(
            (swap_numerator(amount_in, reserve_out, fee) / swap_denominator(
                amount_in,
                reserve_in,
                fee,
            )) as u64,
        )
    }
}

/// Computes the amount paid out for `amount_in` by a pool with the given
/// reserves. The result depends on the four numbers alone.
pub fn calculate_swap_amount(amount_in: u64, reserve_in: u64, reserve_out: u64, fee: u64) -> (r: Result<
    u64,
    BlinkError,
>)
    ensures
        r == swap_amount(amount_in, reserve_in, reserve_out, fee),
{
    if amount_in == 0 || reserve_in == 0 || reserve_out == 0 {
        return Err(BlinkError::InvalidSwapParameters);
    }
    let keep = match checked_sub(FEE_DENOMINATOR, fee) {
        Ok(v) => v,
        Err(e) => {
            return Err(e);
        },
    };
    let with_fee = match checked_mul(amount_in, keep) {
        Ok(v) => v,
        Err(e) => {
            return Err(e);
        },
    };
    let numerator = match checked_mul(with_fee, reserve_out) {
        Ok(v) => v,
        Err(e) => {
            return Err(e);
        },
    };
    let scaled_reserve = match checked_mul(reserve_in, FEE_DENOMINATOR) {
        Ok(v) => v,
        Err(e) => {
            return Err(e);
        },
    };
    let denominator = match checked_add(scaled_reserve, with_fee) {
        Ok(v) => v,
        Err(e) => {
            return Err(e);
        },
    };
    checked_div(numerator, denominator)
}

} // verus!
