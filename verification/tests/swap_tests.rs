use blink::blink_program;
use blink::errors::BlinkError;
use blink::ledger::Event;
use blink::ledger::ExternalError;
use blink::ledger::Transfer;
use blink::pubkey::Pubkey;
use blink::store::Store;
use blink::swap::calculate_swap_amount;
use blink::swap::create_swap;
use blink::swap::execute_swap;
use blink::swap::CreateSwap;
use blink::swap::ExecuteSwap;
use blink::swap::Swap;
use blink::swap::SwapAction;
use blink::swap::SwapPhase;

fn key(b: u8) -> Pubkey {
    Pubkey { bytes: [b; 32] }
}

fn create_ctx() -> CreateSwap {
    CreateSwap {
        owner: key(1),
        token_a: key(2),
        token_b: key(3),
        token_program: key(9),
        system_program: key(10),
    }
}

fn execute_ctx(swap: u64, owner: Pubkey) -> ExecuteSwap {
    ExecuteSwap {
        swap,
        owner,
        token_a_source: key(20),
        token_a_destination: key(21),
        token_b_source: key(22),
        token_b_destination: key(23),
        token_program: key(9),
    }
}

fn store_with_swap() -> (Store<Swap>, u64) {
    let mut store = Store::new();
    let id = create_swap(&mut store, &create_ctx(), 1_000, 500, 700, 3).unwrap();
    (store, id)
}

#[test]
fn swap_amount_without_fee_on_equal_reserves() {
    assert_eq!(calculate_swap_amount(100, 1000, 1000, 0), Ok(90));
}

#[test]
fn swap_amount_refuses_zero_amount_in() {
    assert_eq!(
        calculate_swap_amount(0, 1000, 1000, 0),
        Err(BlinkError::InvalidSwapParameters)
    );
}

#[test]
fn swap_amount_refuses_zero_reserves() {
    assert_eq!(
        calculate_swap_amount(100, 0, 1000, 0),
        Err(BlinkError::InvalidSwapParameters)
    );
    assert_eq!(
        calculate_swap_amount(100, 1000, 0, 0),
        Err(BlinkError::InvalidSwapParameters)
    );
}

#[test]
fn swap_amount_takes_the_fee_from_the_amount_paid_in() {
    // 100 * 997 = 99_700; 99_700 * 1000 / (1_000_000 + 99_700) = 90.66..
    assert_eq!(calculate_swap_amount(100, 1000, 1000, 3), Ok(90));
    // 1000 * 970 = 970_000; 970_000 * 10_000 / (5_000_000 + 970_000) = 1624.79..
    assert_eq!(calculate_swap_amount(1000, 5000, 10_000, 30), Ok(1624));
    // 7 * 1000 * 13 / (3 * 1000 + 7000) = 9.1
    assert_eq!(calculate_swap_amount(7, 3, 13, 0), Ok(9));
}

#[test]
fn swap_amount_with_the_whole_amount_taken_as_fee_is_zero() {
    assert_eq!(calculate_swap_amount(100, 1000, 1000, 1000), Ok(0));
}

#[test]
fn swap_amount_refuses_a_fee_above_one_thousand() {
    assert_eq!(
        calculate_swap_amount(100, 1000, 1000, 1001),
        Err(BlinkError::MathOverflow)
    );
    assert_eq!(
        calculate_swap_amount(100, 1000, 1000, u64::MAX),
        Err(BlinkError::MathOverflow)
    );
}

#[test]
fn swap_amount_refuses_products_that_leave_64_bits() {
    // amount_in * 1000 overflows
    assert_eq!(
        calculate_swap_amount(u64::MAX / 999, 1, 1, 0),
        Err(BlinkError::MathOverflow)
    );
    // amount_in * 1000 fits, times reserve_out does not
    assert_eq!(
        calculate_swap_amount(1_000_000_000, 1, 1_000_000_000, 0),
        Err(BlinkError::MathOverflow)
    );
    // reserve_in * 1000 overflows
    assert_eq!(
        calculate_swap_amount(1, u64::MAX / 999, 1, 0),
        Err(BlinkError::MathOverflow)
    );
    // the sum in the divisor overflows
    assert_eq!(
        calculate_swap_amount(u64::MAX / 1000, u64::MAX / 1000, 1, 0),
        Err(BlinkError::MathOverflow)
    );
}

#[test]
fn swap_amount_at_the_edge_of_64_bits() {
    // 18_446_744_073_709_551 * 1000 = 18_446_744_073_709_551_000 fits
    let a = u64::MAX / 1000;
    assert_eq!(calculate_swap_amount(a, 1, 1, 0), Err(BlinkError::MathOverflow));
    assert_eq!(calculate_swap_amount(a / 2, 1, 1, 0), Ok(0));
}

#[test]
fn swap_amount_is_the_same_for_the_same_inputs() {
    let first = calculate_swap_amount(123_456, 7_890_123, 4_567_890, 25);
    let second = calculate_swap_amount(123_456, 7_890_123, 4_567_890, 25);
    assert_eq!(first, second);
    // 123_456 * 975 = 120_369_600
    // 120_369_600 * 4_567_890 / (7_890_123_000 + 120_369_600) = 68_639.4..
    assert_eq!(first, Ok(68_639));
}

#[test]
fn swap_amount_stays_below_the_reserve() {
    let out = calculate_swap_amount(1_000_000_000, 1, 1_000, 0).unwrap();
    assert!(out < 1_000);
    assert_eq!(out, 999);
}

#[test]
fn created_swap_is_stored_and_not_executed() {
    let (store, id) = store_with_swap();
    assert_eq!(id, 0);
    assert_eq!(
        store.get(id),
        Some(&Swap {
            owner: key(1),
            token_a: key(2),
            token_b: key(3),
            amount_a: 500,
            amount_b: 700,
            fee: 3,
            created_at: 1_000,
            executed_at: None,
        })
    );
}

#[test]
fn swaps_get_ids_in_the_order_of_creation() {
    let mut store = Store::new();
    let first = create_swap(&mut store, &create_ctx(), 1, 1, 1, 0).unwrap();
    let second = blink_program::create_swap(&mut store, &create_ctx(), 2, 2, 2, 0).unwrap();
    assert_eq!((first, second), (0, 1));
    assert_eq!(store.get(second).unwrap().created_at, 2);
}

#[test]
fn swap_executes_leg_a_then_leg_b_then_marks() {
    let (mut store, id) = store_with_swap();
    let ctx = execute_ctx(id, key(1));

    let (phase, action) = execute_swap(&mut store, &ctx, 2_000, SwapPhase::Ready, Event::Start);
    assert_eq!(phase, SwapPhase::LegA);
    assert_eq!(
        action,
        SwapAction::Transfer(Transfer {
            program: key(9),
            from: key(20),
            to: key(21),
            authority: key(1),
            amount: 500,
        })
    );
    assert_eq!(store.get(id).unwrap().executed_at, None);

    let (phase, action) = execute_swap(&mut store, &ctx, 2_000, phase, Event::Succeeded);
    assert_eq!(phase, SwapPhase::LegB);
    assert_eq!(
        action,
        SwapAction::Transfer(Transfer {
            program: key(9),
            from: key(22),
            to: key(23),
            authority: key(1),
            amount: 700,
        })
    );
    assert_eq!(store.get(id).unwrap().executed_at, None);

    let (phase, action) = execute_swap(&mut store, &ctx, 2_000, phase, Event::Succeeded);
    assert_eq!(phase, SwapPhase::Ready);
    assert_eq!(action, SwapAction::Executed);
    let swap = store.get(id).unwrap();
    assert_eq!(swap.executed_at, Some(2_000));
    assert!(swap.executed_at.unwrap() >= swap.created_at);
    assert_eq!(swap.amount_a, 500);
    assert_eq!(swap.owner, key(1));
}

#[test]
fn executed_swap_cannot_be_executed_again() {
    let (mut store, id) = store_with_swap();
    let ctx = execute_ctx(id, key(1));
    let (p, _) = execute_swap(&mut store, &ctx, 2_000, SwapPhase::Ready, Event::Start);
    let (p, _) = execute_swap(&mut store, &ctx, 2_000, p, Event::Succeeded);
    let (_, done) = execute_swap(&mut store, &ctx, 2_000, p, Event::Succeeded);
    assert_eq!(done, SwapAction::Executed);

    let (phase, action) = execute_swap(&mut store, &ctx, 3_000, SwapPhase::Ready, Event::Start);
    assert_eq!(phase, SwapPhase::Ready);
    assert_eq!(action, SwapAction::Rejected(BlinkError::InvalidSwapParameters));
    assert_eq!(store.get(id).unwrap().executed_at, Some(2_000));

    let (_, action) = execute_swap(&mut store, &ctx, 3_000, SwapPhase::LegB, Event::Succeeded);
    assert_eq!(action, SwapAction::Rejected(BlinkError::InvalidSwapParameters));
    assert_eq!(store.get(id).unwrap().executed_at, Some(2_000));
}

#[test]
fn swap_is_not_executed_by_a_stranger() {
    let (mut store, id) = store_with_swap();
    let ctx = execute_ctx(id, key(77));
    let (phase, action) = execute_swap(&mut store, &ctx, 2_000, SwapPhase::Ready, Event::Start);
    assert_eq!(phase, SwapPhase::Ready);
    assert_eq!(action, SwapAction::Rejected(BlinkError::Unauthorized));
    let (_, action) = execute_swap(&mut store, &ctx, 2_000, SwapPhase::LegB, Event::Succeeded);
    assert_eq!(action, SwapAction::Rejected(BlinkError::Unauthorized));
    assert_eq!(store.get(id).unwrap().executed_at, None);
}

#[test]
fn unknown_swap_is_not_found() {
    let (mut store, id) = store_with_swap();
    let ctx = execute_ctx(id + 1, key(1));
    let (phase, action) = execute_swap(&mut store, &ctx, 2_000, SwapPhase::Ready, Event::Start);
    assert_eq!(phase, SwapPhase::Ready);
    assert_eq!(action, SwapAction::Rejected(BlinkError::SwapNotFound));
}

#[test]
fn refused_first_leg_leaves_the_swap_open() {
    let (mut store, id) = store_with_swap();
    let ctx = execute_ctx(id, key(1));
    let (phase, _) = execute_swap(&mut store, &ctx, 2_000, SwapPhase::Ready, Event::Start);
    let refusal = ExternalError { code: 17 };
    let (phase, action) = execute_swap(&mut store, &ctx, 2_000, phase, Event::Failed(refusal));
    assert_eq!(phase, SwapPhase::Ready);
    assert_eq!(action, SwapAction::Failed(refusal));
    assert_eq!(store.get(id).unwrap().executed_at, None);
}

#[test]
fn refused_second_leg_is_told_apart_and_leaves_the_swap_open() {
    let (mut store, id) = store_with_swap();
    let ctx = execute_ctx(id, key(1));
    let (phase, _) = execute_swap(&mut store, &ctx, 2_000, SwapPhase::Ready, Event::Start);
    let (phase, _) = execute_swap(&mut store, &ctx, 2_000, phase, Event::Succeeded);
    let refusal = ExternalError { code: 1 };
    let (phase, action) = execute_swap(&mut store, &ctx, 2_000, phase, Event::Failed(refusal));
    assert_eq!(phase, SwapPhase::Ready);
    assert_eq!(action, SwapAction::PartiallySettled(refusal));
    assert_eq!(store.get(id).unwrap().executed_at, None);

    // the swap may be tried again from the start
    let (phase, action) =
        blink_program::execute_swap(&mut store, &ctx, 2_500, phase, Event::Start);
    assert_eq!(phase, SwapPhase::LegA);
    assert!(matches!(action, SwapAction::Transfer(_)));
}

#[test]
fn event_that_does_not_belong_to_the_phase_is_refused() {
    let (mut store, id) = store_with_swap();
    let ctx = execute_ctx(id, key(1));
    let (phase, action) = execute_swap(&mut store, &ctx, 2_000, SwapPhase::Ready, Event::Succeeded);
    assert_eq!(phase, SwapPhase::Ready);
    assert_eq!(action, SwapAction::Rejected(BlinkError::InvalidSwapParameters));
    let (_, action) = execute_swap(&mut store, &ctx, 2_000, SwapPhase::LegA, Event::Start);
    assert_eq!(action, SwapAction::Rejected(BlinkError::InvalidSwapParameters));
    let (_, action) = execute_swap(
        &mut store,
        &ctx,
        2_000,
        SwapPhase::Ready,
        Event::Failed(ExternalError { code: 5 }),
    );
    assert_eq!(action, SwapAction::Rejected(BlinkError::InvalidSwapParameters));
    assert_eq!(store.get(id).unwrap().executed_at, None);
}
