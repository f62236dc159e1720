use vstd::prelude::*;
use crate::errors::BlinkError;
use crate::ledger::Event;
use crate::store::RecordId;
use crate::store::Store;
use crate::swap::action_of_step;
use crate::swap::new_swap;
use crate::swap::phase_after_step;
use crate::swap::store_after_step;
use crate::swap::CreateSwap;
use crate::swap::ExecuteSwap;
use crate::swap::Swap;
use crate::swap::SwapAction;
use crate::swap::SwapPhase;

verus! {

/// The instruction that records the intent to swap: see
/// [`crate::swap::create_swap`].
pub fn create_swap(
    store: &mut Store<Swap>,
    ctx: &CreateSwap,
    now: i64,
    amount_a: u64,
    amount_b: u64,
    fee: u64,
) -> (r: Result<RecordId, BlinkError>)
    ensures
        r == Ok::<RecordId, BlinkError>(old(store)@.fresh_id()),
        final(store)@ == old(store)@.insert(new_swap(*ctx, now, amount_a, amount_b, fee)),
{
    crate::swap::create_swap(store, ctx, now, amount_a, amount_b, fee)
}

/// The instruction that takes one step of the execution of a swap: see
/// [`crate::swap::execute_swap`].
pub fn execute_swap(
    store: &mut Store<Swap>,
    ctx: &ExecuteSwap,
    now: i64,
    phase: SwapPhase,
    event: Event,
) -> (r: (SwapPhase, SwapAction))
    ensures
        r.0 == phase_after_step(old(store)@, *ctx, phase, event),
        r.1 == action_of_step(old(store)@, *ctx, phase, event),
        final(store)@ == store_after_step(old(store)@, *ctx, now, phase, event),
{
    crate::swap::execute_swap(store, ctx, now, phase, event)
}

} // verus!
