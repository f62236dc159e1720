use vstd::prelude::*;
use crate::blink::blink_text_refusal;
use crate::blink::new_blink;
use crate::blink::result_of_create_blink;
use crate::blink::result_of_delete_blink;
use crate::blink::result_of_update_blink;
use crate::blink::store_after_create_blink;
use crate::blink::store_after_delete_blink;
use crate::blink::store_after_update_blink;
use crate::blink::Blink;
use crate::blink::BlinkType;
use crate::blink::CreateBlink;
use crate::blink::DeleteBlink;
use crate::blink::UpdateBlink;
use crate::collection::collection_text_refusal;
use crate::collection::new_collection;
use crate::collection::nfts_after_add_nft_to_collection;
use crate::collection::result_of_add_nft_to_collection;
use crate::collection::result_of_create_collection;
use crate::collection::store_after_create_collection;
use crate::collection::AddNFTToCollection;
use crate::collection::Collection;
use crate::collection::CreateCollection;
use crate::donations::new_donation;
use crate::donations::CreateDonation;
use crate::donations::Donation;
use crate::errors::BlinkError;
use crate::ledger::Event;
use crate::ledger::ExternalError;
use crate::ledger::Failure;
use crate::mint::mint_after_step;
use crate::mint::MintAction;
use crate::mint::MintPhase;
use crate::mint::MintPlan;
use crate::nft::new_nft;
use crate::nft::CreateNFT;
use crate::nft::NFT;
use crate::payments::new_payment;
use crate::payments::result_of_create_payment;
use crate::payments::result_of_settle_payment;
use crate::payments::store_after_create_payment;
use crate::payments::store_after_settle_payment;
use crate::payments::CreatePayment;
use crate::payments::Payment;
use crate::payments::PaymentStatus;
use crate::pubkey::Pubkey;
use crate::store::RecordId;
use crate::store::StoreView;
use crate::swap::action_of_step;
use crate::swap::new_swap;
use crate::swap::phase_after_step;
use crate::swap::store_after_step;
use crate::swap::swap_amount;
use crate::swap::swap_denominator;
use crate::swap::swap_numerator;
use crate::swap::amount_in_with_fee;
use crate::swap::CreateSwap;
use crate::swap::ExecuteSwap;
use crate::swap::Swap;
use crate::swap::SwapAction;
use crate::swap::SwapPhase;
use crate::text::fits;
use crate::text::BLINK_DESCRIPTION_MAX;
use crate::text::BLINK_NAME_MAX;
use crate::text::CURRENCY_MAX;
use crate::text::MESSAGE_MAX;
use crate::text::PAYMENT_DESCRIPTION_MAX;
use crate::text::SYMBOL_MAX;
use crate::text::TOKEN_NAME_MAX;

verus! {

/// A profile card whose texts fit is created, and is then found under the id
/// that creation returned, with the texts and the kind that were given, the
/// creator as its owner, and both times set to the time of creation.
pub proof fn law_created_blink_is_found(
    pre: StoreView<Blink>,
    ctx: CreateBlink,
    now: i64,
    name: String,
    description: String,
    blink_type: BlinkType,
    image_url: String,
)
    requires
        pre.wf(),
        fits(name@, BLINK_NAME_MAX as nat),
        fits(description@, BLINK_DESCRIPTION_MAX as nat),
    ensures
        result_of_create_blink(pre, name, description) matches Ok(id) && store_after_create_blink(
            pre,
            ctx,
            now,
            name,
            description,
            blink_type,
            image_url,
        ).get(id) == Some(
            Blink {
                owner: ctx.owner,
                name,
                description,
                image_url,
                blink_type,
                created_at: now,
                updated_at: now,
            },
        ),
{
    pre.lemma_insert(new_blink(ctx, now, name, description, blink_type, image_url));
}

/// A collection whose texts fit is created, and is then found under the id
/// that creation returned, with the texts that were given and the creator as
/// its owner.
pub proof fn law_created_collection_is_found(
    pre: StoreView<Collection>,
    ctx: CreateCollection,
    now: i64,
    name: String,
    symbol: String,
    uri: String,
)
    requires
        pre.wf(),
        fits(name@, TOKEN_NAME_MAX as nat),
        fits(symbol@, SYMBOL_MAX as nat),
    ensures
        result_of_create_collection(pre, name, symbol) matches Ok(id)
            && store_after_create_collection(pre, ctx, now, name, symbol, uri).get(id) == Some(
            Collection { owner: ctx.owner, name, symbol, uri, created_at: now },
        ),
{
    pre.lemma_insert(new_collection(ctx, now, name, symbol, uri));
}

/// An NFT whose texts fit and whose metadata was published is found under
/// the id that was returned, with the texts and the mint that were given,
/// the creator as its owner, and no collection.
pub proof fn law_created_nft_is_found(
    pre: StoreView<NFT>,
    ctx: CreateNFT,
    now: i64,
    name: String,
    symbol: String,
    uri: String,
)
    requires
        pre.wf(),
        fits(name@, TOKEN_NAME_MAX as nat),
        fits(symbol@, SYMBOL_MAX as nat),
    ensures
        new_nft(ctx, now, name, symbol, uri) matches Ok(record) && pre.settled_id(Ok(())) matches Ok(id)
            && pre.settle(record, Ok(())).get(id) == Some(
            NFT {
                owner: ctx.owner,
                mint: ctx.mint,
                name,
                symbol,
                uri,
                collection: None,
                created_at: now,
            },
        ),
{
    pre.lemma_insert(new_nft(ctx, now, name, symbol, uri)->Ok_0);
}

/// A donation whose texts fit and whose amount the ledger moved is found
/// under the id that was returned, with the amount and the texts that were
/// given, and with the donor and the recipient of the request.
pub proof fn law_created_donation_is_found(
    pre: StoreView<Donation>,
    ctx: CreateDonation,
    now: i64,
    amount: u64,
    currency: String,
    message: String,
)
    requires
        pre.wf(),
        fits(currency@, CURRENCY_MAX as nat),
        fits(message@, MESSAGE_MAX as nat),
    ensures
        new_donation(ctx, now, amount, currency, message) matches Ok(record) && pre.settled_id(
            Ok(()),
        ) matches Ok(id) && pre.settle(record, Ok(())).get(id) == Some(
            Donation {
                donor: ctx.donor,
                recipient: ctx.recipient,
                amount,
                currency,
                message,
                timestamp: now,
            },
        ),
{
    pre.lemma_insert(new_donation(ctx, now, amount, currency, message)->Ok_0);
}

/// A payment whose texts fit is stored as pending, and is then found under
/// the id that was returned, with the amount and the texts that were given,
/// and with the payer and the recipient of the request.
pub proof fn law_created_payment_is_found(
    pre: StoreView<Payment>,
    ctx: CreatePayment,
    now: i64,
    amount: u64,
    currency: String,
    description: String,
)
    requires
        pre.wf(),
        fits(currency@, CURRENCY_MAX as nat),
        fits(description@, PAYMENT_DESCRIPTION_MAX as nat),
    ensures
        result_of_create_payment(pre, ctx, now, amount, currency, description) matches Ok(created)
            && store_after_create_payment(pre, ctx, now, amount, currency, description).get(
            created.0,
        ) == Some(
            Payment {
                payer: ctx.payer,
                recipient: ctx.recipient,
                amount,
                currency,
                description,
                status: PaymentStatus::Pending,
                timestamp: now,
            },
        ),
{
    pre.lemma_insert(new_payment(ctx, now, amount, currency, description)->Ok_0);
}

/// A swap that was created is found under the id that was returned, with
/// the amounts and the fee that were given, the creator as its owner, and
/// not executed.
pub proof fn law_created_swap_is_found(
    pre: StoreView<Swap>,
    ctx: CreateSwap,
    now: i64,
    amount_a: u64,
    amount_b: u64,
    fee: u64,
)
    requires
        pre.wf(),
    ensures
        pre.insert(new_swap(ctx, now, amount_a, amount_b, fee)).get(pre.fresh_id()) == Some(
            Swap {
                owner: ctx.owner,
                token_a: ctx.token_a,
                token_b: ctx.token_b,
                amount_a,
                amount_b,
                fee,
                created_at: now,
                executed_at: None,
            },
        ),
{
    pre.lemma_insert(new_swap(ctx, now, amount_a, amount_b, fee));
}

/// Whoever is not the owner of a profile card cannot change it: the change
/// is refused as unauthorized, whatever the texts, and the store stays as it
/// is.
pub proof fn law_update_by_stranger_changes_nothing(
    pre: StoreView<Blink>,
    ctx: UpdateBlink,
    now: i64,
    name: String,
    description: String,
    image_url: String,
)
    requires
        pre.records.contains_key(ctx.blink),
        pre.records[ctx.blink].owner != ctx.owner,
    ensures
        result_of_update_blink(pre, ctx, name, description) == Err::<(), BlinkError>(
            BlinkError::Unauthorized,
        ),
        store_after_update_blink(pre, ctx, now, name, description, image_url) == pre,
{
}

/// A change of a profile card that goes through leaves its owner, its kind
/// and the time of its creation as they were, and leaves every other record
/// alone.
pub proof fn law_update_keeps_what_is_fixed(
    pre: StoreView<Blink>,
    ctx: UpdateBlink,
    now: i64,
    name: String,
    description: String,
    image_url: String,
)
    requires
        result_of_update_blink(pre, ctx, name, description) is Ok,
    ensures
        ({
            let post = store_after_update_blink(pre, ctx, now, name, description, image_url);
            &&& post.get(ctx.blink) matches Some(blink)
            &&& blink.owner == pre.records[ctx.blink].owner
            &&& blink.blink_type == pre.records[ctx.blink].blink_type
            &&& blink.created_at == pre.records[ctx.blink].created_at
            &&& blink.name == name
            &&& blink.description == description
            &&& blink.image_url == image_url
            &&& blink.updated_at == now
            &&& forall|id: RecordId| id != ctx.blink ==> post.get(id) == pre.get(id)
        }),
{
}

/// Whoever is not the owner of a profile card cannot delete it: the deletion
/// is refused as unauthorized and the store stays as it is.
pub proof fn law_delete_by_stranger_changes_nothing(pre: StoreView<Blink>, ctx: DeleteBlink)
    requires
        pre.records.contains_key(ctx.blink),
        pre.records[ctx.blink].owner != ctx.owner,
    ensures
        result_of_delete_blink(pre, ctx) == Err::<Pubkey, BlinkError>(BlinkError::Unauthorized),
        store_after_delete_blink(pre, ctx) == pre,
{
}

/// A name or a description that is too long is refused when a profile card
/// is created or changed, as `NameTooLong` or `DescriptionTooLong`, and the
/// store stays as it is. On a change, this holds for the owner; anybody else
/// is refused before the texts are looked at.
pub proof fn law_overlong_blink_text_is_refused(
    pre: StoreView<Blink>,
    create: CreateBlink,
    update: UpdateBlink,
    now: i64,
    name: String,
    description: String,
    blink_type: BlinkType,
    image_url: String,
)
    requires
        !fits(name@, BLINK_NAME_MAX as nat) || !fits(description@, BLINK_DESCRIPTION_MAX as nat),
    ensures
        result_of_create_blink(pre, name, description) is Err,
        result_of_create_blink(pre, name, description)->Err_0 == BlinkError::NameTooLong
            || result_of_create_blink(pre, name, description)->Err_0
            == BlinkError::DescriptionTooLong,
        !fits(name@, BLINK_NAME_MAX as nat) ==> result_of_create_blink(pre, name, description)
            == Err::<RecordId, BlinkError>(BlinkError::NameTooLong),
        store_after_create_blink(pre, create, now, name, description, blink_type, image_url) == pre,
        result_of_update_blink(pre, update, name, description) is Err,
        store_after_update_blink(pre, update, now, name, description, image_url) == pre,
        pre.records.contains_key(update.blink) && pre.records[update.blink].owner == update.owner
            ==> result_of_update_blink(pre, update, name, description) == Err::<(), BlinkError>(
            blink_text_refusal(name@, description@)->0,
        ),
{
}

/// A name or a symbol that is too long is refused when a collection is
/// created, as `NameTooLong` or `SymbolTooLong`, and the store stays as it
/// is.
pub proof fn law_overlong_collection_text_is_refused(
    pre: StoreView<Collection>,
    ctx: CreateCollection,
    now: i64,
    name: String,
    symbol: String,
    uri: String,
)
    requires
        !fits(name@, TOKEN_NAME_MAX as nat) || !fits(symbol@, SYMBOL_MAX as nat),
    ensures
        result_of_create_collection(pre, name, symbol) == Err::<RecordId, BlinkError>(
            collection_text_refusal(name@, symbol@)->0,
        ),
        collection_text_refusal(name@, symbol@)->0 == BlinkError::NameTooLong
            || collection_text_refusal(name@, symbol@)->0 == BlinkError::SymbolTooLong,
        store_after_create_collection(pre, ctx, now, name, symbol, uri) == pre,
{
}

/// A name or a symbol that is too long is refused when an NFT is created, a
/// currency code or a message when a donation is made, and a currency code
/// or a description when a payment is made. No record is made, and the store
/// of payments stays as it is.
pub proof fn law_overlong_flow_text_is_refused(
    payments: StoreView<Payment>,
    nft: CreateNFT,
    donation: CreateDonation,
    payment: CreatePayment,
    now: i64,
    amount: u64,
    first: String,
    second: String,
    uri: String,
)
    ensures
        !fits(first@, TOKEN_NAME_MAX as nat) ==> new_nft(nft, now, first, second, uri) == Err::<
            NFT,
            BlinkError,
        >(BlinkError::NameTooLong),
        fits(first@, TOKEN_NAME_MAX as nat) && !fits(second@, SYMBOL_MAX as nat) ==> new_nft(
            nft,
            now,
            first,
            second,
            uri,
        ) == Err::<NFT, BlinkError>(BlinkError::SymbolTooLong),
        !fits(first@, CURRENCY_MAX as nat) ==> new_donation(donation, now, amount, first, second)
            == Err::<Donation, BlinkError>(BlinkError::InvalidCurrency),
        fits(first@, CURRENCY_MAX as nat) && !fits(second@, MESSAGE_MAX as nat) ==> new_donation(
            donation,
            now,
            amount,
            first,
            second,
        ) == Err::<Donation, BlinkError>(BlinkError::MessageTooLong),
        !fits(first@, CURRENCY_MAX as nat) ==> new_payment(payment, now, amount, first, second)
            == Err::<Payment, BlinkError>(BlinkError::InvalidCurrency),
        fits(first@, CURRENCY_MAX as nat) && !fits(second@, PAYMENT_DESCRIPTION_MAX as nat)
            ==> new_payment(payment, now, amount, first, second) == Err::<Payment, BlinkError>(
            BlinkError::DescriptionTooLong,
        ),
        !fits(first@, CURRENCY_MAX as nat) || !fits(second@, PAYMENT_DESCRIPTION_MAX as nat)
            ==> result_of_create_payment(payments, payment, now, amount, first, second) is Err
            && store_after_create_payment(payments, payment, now, amount, first, second)
            == payments,
{
}

/// The operations on profile cards keep every stored card within the limits
/// on its texts, and keep the time of the last change of a card from moving
/// back as long as the clock does not.
pub proof fn law_blinks_stay_well_formed(
    pre: StoreView<Blink>,
    create: CreateBlink,
    update: UpdateBlink,
    delete: DeleteBlink,
    now: i64,
    name: String,
    description: String,
    blink_type: BlinkType,
    image_url: String,
)
    requires
        pre.wf(),
        pre.next_id < u64::MAX,
        pre.all(|blink: Blink| blink.wf()),
    ensures
        store_after_create_blink(pre, create, now, name, description, blink_type, image_url).all(
            |blink: Blink| blink.wf(),
        ),
        store_after_create_blink(pre, create, now, name, description, blink_type, image_url).wf(),
        store_after_update_blink(pre, update, now, name, description, image_url).all(
            |blink: Blink| blink.wf(),
        ),
        store_after_update_blink(pre, update, now, name, description, image_url).wf(),
        store_after_delete_blink(pre, delete).all(|blink: Blink| blink.wf()),
        store_after_delete_blink(pre, delete).wf(),
        pre.all(|blink: Blink| blink.created_at <= blink.updated_at && blink.updated_at <= now)
            ==> store_after_create_blink(
            pre,
            create,
            now,
            name,
            description,
            blink_type,
            image_url,
        ).all(|blink: Blink| blink.created_at <= blink.updated_at && blink.updated_at <= now)
            && store_after_update_blink(pre, update, now, name, description, image_url).all(
            |blink: Blink| blink.created_at <= blink.updated_at && blink.updated_at <= now,
        ),
{
    let good = |blink: Blink| blink.wf();
    let timely = |blink: Blink| blink.created_at <= blink.updated_at && blink.updated_at <= now;
    let created = store_after_create_blink(pre, create, now, name, description, blink_type, image_url);
    let updated = store_after_update_blink(pre, update, now, name, description, image_url);
    let deleted = store_after_delete_blink(pre, delete);
    assert forall|id: RecordId| created.records.contains_key(id) implies good(
        #[trigger] created.records[id],
    ) by {
        if pre.records.contains_key(id) {
            assert(good(pre.records[id]));
        }
    }
    assert forall|id: RecordId| updated.records.contains_key(id) implies good(
        #[trigger] updated.records[id],
    ) by {
        assert(pre.records.contains_key(id));
        assert(good(pre.records[id]));
    }
    assert forall|id: RecordId| deleted.records.contains_key(id) implies good(
        #[trigger] deleted.records[id],
    ) by {
        assert(good(pre.records[id]));
    }
    if pre.all(timely) {
        assert forall|id: RecordId| created.records.contains_key(id) implies timely(
            #[trigger] created.records[id],
        ) by {
            if pre.records.contains_key(id) {
                assert(timely(pre.records[id]));
            }
        }
        assert forall|id: RecordId| updated.records.contains_key(id) implies timely(
            #[trigger] updated.records[id],
        ) by {
            assert(pre.records.contains_key(id));
            assert(timely(pre.records[id]));
        }
    }
}

/// The records that creation makes are within the limits on their texts: a
/// collection, an NFT, a donation and a payment, each where its creation
/// goes through. Adding an NFT to a collection and settling a payment leave
/// the texts alone.
pub proof fn law_created_records_are_well_formed(
    nft: CreateNFT,
    donation: CreateDonation,
    payment: CreatePayment,
    collection: CreateCollection,
    now: i64,
    amount: u64,
    first: String,
    second: String,
    uri: String,
    stored_nft: NFT,
    added_to: RecordId,
    stored_payment: Payment,
)
    ensures
        new_nft(nft, now, first, second, uri) matches Ok(record) ==> record.wf(),
        new_donation(donation, now, amount, first, second) matches Ok(record) ==> record.wf(),
        new_payment(payment, now, amount, first, second) matches Ok(record) ==> record.wf(),
        collection_text_refusal(first@, second@) is None ==> new_collection(
            collection,
            now,
            first,
            second,
            uri,
        ).wf(),
        stored_nft.wf() ==> (NFT { collection: Some(added_to), ..stored_nft }).wf(),
        stored_payment.wf() ==> (Payment {
            status: PaymentStatus::Completed,
            ..stored_payment
        }).wf(),
{
}

/// The steps of an execution keep every stored swap such that it was
/// executed, if at all, no earlier than it was created, as long as the clock
/// does not run backwards.
pub proof fn law_swaps_stay_well_formed(
    pre: StoreView<Swap>,
    create: CreateSwap,
    amount_a: u64,
    amount_b: u64,
    fee: u64,
    ctx: ExecuteSwap,
    now: i64,
    phase: SwapPhase,
    event: Event,
)
    requires
        pre.all(|swap: Swap| swap.wf() && swap.created_at <= now),
    ensures
        pre.insert(new_swap(create, now, amount_a, amount_b, fee)).all(
            |swap: Swap| swap.wf() && swap.created_at <= now,
        ),
        store_after_step(pre, ctx, now, phase, event).all(
            |swap: Swap| swap.wf() && swap.created_at <= now,
        ),
{
    let good = |swap: Swap| swap.wf() && swap.created_at <= now;
    let created = pre.insert(new_swap(create, now, amount_a, amount_b, fee));
    let stepped = store_after_step(pre, ctx, now, phase, event);
    assert forall|id: RecordId| created.records.contains_key(id) implies good(
        #[trigger] created.records[id],
    ) by {
        if pre.records.contains_key(id) {
            assert(good(pre.records[id]));
        }
    }
    assert forall|id: RecordId| stepped.records.contains_key(id) implies good(
        #[trigger] stepped.records[id],
    ) by {
        assert(pre.records.contains_key(id));
        assert(good(pre.records[id]));
    }
}

/// A payment is pending when it is created and completed once the ledger
/// has moved the amount. Where the ledger refuses, the refusal is handed on
/// as it came and the payment stays pending; a completed payment cannot be
/// settled again.
pub proof fn law_payment_completes_after_transfer(
    pre: StoreView<Payment>,
    id: RecordId,
    refusal: ExternalError,
)
    requires
        pre.records.contains_key(id),
        pre.records[id].status == PaymentStatus::Pending,
    ensures
        result_of_settle_payment(pre, id, Ok(())) == Ok::<(), Failure>(()),
        store_after_settle_payment(pre, id, Ok(())).get(id) == Some(
            Payment { status: PaymentStatus::Completed, ..pre.records[id] },
        ),
        result_of_settle_payment(pre, id, Err(refusal)) == Err::<(), Failure>(
            Failure::External(refusal),
        ),
        store_after_settle_payment(pre, id, Err(refusal)) == pre,
        result_of_settle_payment(store_after_settle_payment(pre, id, Ok(())), id, Ok(())) == Err::<
            (),
            Failure,
        >(Failure::Refused(BlinkError::InvalidPaymentStatus)),
{
}

/// A swap that was just created is not executed, and a first step of its
/// execution by its owner orders the first leg and marks nothing.
pub proof fn law_new_swap_is_not_executed(
    pre: StoreView<Swap>,
    create: CreateSwap,
    now: i64,
    amount_a: u64,
    amount_b: u64,
    fee: u64,
    execute: ExecuteSwap,
    later: i64,
)
    requires
        pre.wf(),
        execute.swap == pre.fresh_id(),
        execute.owner == create.owner,
    ensures
        ({
            let created = pre.insert(new_swap(create, now, amount_a, amount_b, fee));
            &&& created.get(execute.swap) matches Some(swap)
            &&& swap.executed_at is None
            &&& action_of_step(created, execute, SwapPhase::Ready, Event::Start) is Transfer
            &&& phase_after_step(created, execute, SwapPhase::Ready, Event::Start) == SwapPhase::LegA
            &&& store_after_step(created, execute, later, SwapPhase::Ready, Event::Start) == created
        }),
{
    pre.lemma_insert(new_swap(create, now, amount_a, amount_b, fee));
}

/// The legs of a swap are ordered one after the other, token A first, and
/// the swap is marked as executed by the step that learns that the second
/// leg has moved: at the time of that step, which is not before the time of
/// creation if the clock has not run backwards. Nothing but that time
/// changes.
pub proof fn law_swap_is_executed_after_both_legs(pre: StoreView<Swap>, ctx: ExecuteSwap, now: i64)
    requires
        pre.records.contains_key(ctx.swap),
        pre.records[ctx.swap].owner == ctx.owner,
        pre.records[ctx.swap].executed_at is None,
    ensures
        action_of_step(pre, ctx, SwapPhase::Ready, Event::Start) == SwapAction::Transfer(
            crate::swap::leg_a(ctx, pre.records[ctx.swap]),
        ),
        phase_after_step(pre, ctx, SwapPhase::Ready, Event::Start) == SwapPhase::LegA,
        action_of_step(pre, ctx, SwapPhase::LegA, Event::Succeeded) == SwapAction::Transfer(
            crate::swap::leg_b(ctx, pre.records[ctx.swap]),
        ),
        phase_after_step(pre, ctx, SwapPhase::LegA, Event::Succeeded) == SwapPhase::LegB,
        action_of_step(pre, ctx, SwapPhase::LegB, Event::Succeeded) == SwapAction::Executed,
        store_after_step(pre, ctx, now, SwapPhase::LegB, Event::Succeeded).get(ctx.swap) == Some(
            Swap { executed_at: Some(now), ..pre.records[ctx.swap] },
        ),
        pre.records[ctx.swap].created_at <= now ==> store_after_step(
            pre,
            ctx,
            now,
            SwapPhase::LegB,
            Event::Succeeded,
        ).records[ctx.swap].executed_at->0 >= pre.records[ctx.swap].created_at,
{
}

/// A step of an execution marks the swap only if it is the step that learns
/// that the second leg has moved. In particular a refusal of either leg
/// leaves the swap as it was, not executed and open to another try, and the
/// refusal is handed on as it came: as a failure where nothing has moved, as
/// a partial settlement where the first leg has.
pub proof fn law_failed_leg_marks_nothing(
    pre: StoreView<Swap>,
    ctx: ExecuteSwap,
    now: i64,
    phase: SwapPhase,
    event: Event,
    refusal: ExternalError,
)
    requires
        pre.records.contains_key(ctx.swap),
        pre.records[ctx.swap].owner == ctx.owner,
        pre.records[ctx.swap].executed_at is None,
    ensures
        !(phase == SwapPhase::LegB && event == Event::Succeeded) ==> store_after_step(
            pre,
            ctx,
            now,
            phase,
            event,
        ) == pre,
        action_of_step(pre, ctx, SwapPhase::LegA, Event::Failed(refusal)) == SwapAction::Failed(
            refusal,
        ),
        action_of_step(pre, ctx, SwapPhase::LegB, Event::Failed(refusal))
            == SwapAction::PartiallySettled(refusal),
        phase_after_step(pre, ctx, SwapPhase::LegA, Event::Failed(refusal)) == SwapPhase::Ready,
        phase_after_step(pre, ctx, SwapPhase::LegB, Event::Failed(refusal)) == SwapPhase::Ready,
{
}

/// A swap is executed at most once: once it is marked as executed, every
/// step of an execution is refused, orders no transfer, and leaves the
/// store, and with it the time of execution, as it is.
pub proof fn law_executed_swap_is_final(
    pre: StoreView<Swap>,
    ctx: ExecuteSwap,
    now: i64,
    phase: SwapPhase,
    event: Event,
)
    requires
        pre.records.contains_key(ctx.swap),
        pre.records[ctx.swap].executed_at is Some,
    ensures
        action_of_step(pre, ctx, phase, event) is Rejected,
        pre.records[ctx.swap].owner == ctx.owner ==> action_of_step(pre, ctx, phase, event)
            == SwapAction::Rejected(BlinkError::InvalidSwapParameters),
        phase_after_step(pre, ctx, phase, event) == SwapPhase::Ready,
        store_after_step(pre, ctx, now, phase, event) == pre,
{
}

/// Whoever is not the owner of a swap cannot execute it: every step is
/// refused as unauthorized, orders no transfer, and leaves the store as it
/// is.
pub proof fn law_execute_by_stranger_changes_nothing(
    pre: StoreView<Swap>,
    ctx: ExecuteSwap,
    now: i64,
    phase: SwapPhase,
    event: Event,
)
    requires
        pre.records.contains_key(ctx.swap),
        pre.records[ctx.swap].owner != ctx.owner,
    ensures
        action_of_step(pre, ctx, phase, event) == SwapAction::Rejected(BlinkError::Unauthorized),
        phase_after_step(pre, ctx, phase, event) == SwapPhase::Ready,
        store_after_step(pre, ctx, now, phase, event) == pre,
{
}

/// A profile card is deleted at most once: after a deletion that went
/// through, deleting the same id again is refused with `BlinkNotFound`,
/// whoever asks, and this stays so after any later creation, because ids are
/// not used again.
pub proof fn law_delete_never_succeeds_twice(
    pre: StoreView<Blink>,
    ctx: DeleteBlink,
    again: DeleteBlink,
    later: Blink,
)
    requires
        pre.wf(),
        result_of_delete_blink(pre, ctx) is Ok,
        again.blink == ctx.blink,
    ensures
        result_of_delete_blink(pre, ctx) == Ok::<Pubkey, BlinkError>(ctx.owner),
        result_of_delete_blink(store_after_delete_blink(pre, ctx), again) == Err::<
            Pubkey,
            BlinkError,
        >(BlinkError::BlinkNotFound),
        store_after_delete_blink(store_after_delete_blink(pre, ctx), again)
            == store_after_delete_blink(pre, ctx),
        result_of_delete_blink(store_after_delete_blink(pre, ctx).insert(later), again) == Err::<
            Pubkey,
            BlinkError,
        >(BlinkError::BlinkNotFound),
{
    pre.lemma_remove(ctx.blink, later);
}

/// Deleting an id under which no record is held is refused with
/// `BlinkNotFound` and leaves the store as it is.
pub proof fn law_delete_of_unknown_id_is_refused(pre: StoreView<Blink>, ctx: DeleteBlink)
    requires
        !pre.records.contains_key(ctx.blink),
    ensures
        result_of_delete_blink(pre, ctx) == Err::<Pubkey, BlinkError>(BlinkError::BlinkNotFound),
        store_after_delete_blink(pre, ctx) == pre,
{
}

/// When the owner of a collection adds an NFT that is in no collection yet,
/// the NFT refers to that collection afterwards and is otherwise as before.
/// Who owns the NFT plays no part: the same holds with any other owner in
/// the NFT's record.
pub proof fn law_add_nft_sets_reference(
    nfts: StoreView<NFT>,
    collections: StoreView<Collection>,
    ctx: AddNFTToCollection,
    other_owner: Pubkey,
)
    requires
        nfts.records.contains_key(ctx.nft),
        nfts.records[ctx.nft].collection is None,
        collections.records.contains_key(ctx.collection),
        collections.records[ctx.collection].owner == ctx.owner,
    ensures
        result_of_add_nft_to_collection(nfts, collections, ctx) == Ok::<(), BlinkError>(()),
        nfts_after_add_nft_to_collection(nfts, collections, ctx).get(ctx.nft) == Some(
            NFT { collection: Some(ctx.collection), ..nfts.records[ctx.nft] },
        ),
        ({
            let others = nfts.replace(ctx.nft, NFT { owner: other_owner, ..nfts.records[ctx.nft] });
            &&& result_of_add_nft_to_collection(others, collections, ctx) == Ok::<(), BlinkError>(())
            &&& nfts_after_add_nft_to_collection(others, collections, ctx).get(ctx.nft) == Some(
                NFT {
                    owner: other_owner,
                    collection: Some(ctx.collection),
                    ..nfts.records[ctx.nft]
                },
            )
        }),
{
}

/// The reference of an NFT to its collection is set once. After an NFT was
/// added to a collection, adding it again is refused with
/// `InvalidCollection`, to the same collection or to another and whoever
/// owns that one, and the NFT keeps the reference that it has. More
/// generally, no request to add changes a reference that is set.
pub proof fn law_collection_reference_is_set_once(
    nfts: StoreView<NFT>,
    collections: StoreView<Collection>,
    first: AddNFTToCollection,
    second: AddNFTToCollection,
)
    requires
        result_of_add_nft_to_collection(nfts, collections, first) is Ok,
        second.nft == first.nft,
        collections.records.contains_key(second.collection),
        collections.records[second.collection].owner == second.owner,
    ensures
        ({
            let added = nfts_after_add_nft_to_collection(nfts, collections, first);
            &&& added.get(first.nft) matches Some(nft)
            &&& nft.collection == Some(first.collection)
            &&& result_of_add_nft_to_collection(added, collections, second) == Err::<
                (),
                BlinkError,
            >(BlinkError::InvalidCollection)
            &&& nfts_after_add_nft_to_collection(added, collections, second) == added
        }),
{
}

/// No request to add an NFT to a collection changes a reference that is
/// set: whatever the request and whatever it returns, an NFT that referred
/// to a collection before refers to the same collection afterwards.
pub proof fn law_set_reference_is_kept(
    nfts: StoreView<NFT>,
    collections: StoreView<Collection>,
    ctx: AddNFTToCollection,
    id: RecordId,
)
    requires
        nfts.records.contains_key(id),
        nfts.records[id].collection is Some,
    ensures
        nfts_after_add_nft_to_collection(nfts, collections, ctx).get(id) == Some(nfts.records[id]),
        ctx.nft == id ==> result_of_add_nft_to_collection(nfts, collections, ctx) is Err,
{
}

/// Whoever does not own a collection cannot add an NFT to it: adding is
/// refused as unauthorized and the NFTs stay as they are.
pub proof fn law_add_nft_by_stranger_changes_nothing(
    nfts: StoreView<NFT>,
    collections: StoreView<Collection>,
    ctx: AddNFTToCollection,
)
    requires
        nfts.records.contains_key(ctx.nft),
        collections.records.contains_key(ctx.collection),
        collections.records[ctx.collection].owner != ctx.owner,
    ensures
        result_of_add_nft_to_collection(nfts, collections, ctx) == Err::<(), BlinkError>(
            BlinkError::Unauthorized,
        ),
        nfts_after_add_nft_to_collection(nfts, collections, ctx) == nfts,
{
}

/// The metadata of a mint is published only after the mint was initialized:
/// the publication is ordered by the step that learns that the
/// initialization went through, and by no other. A refusal of either
/// request ends the creation, orders nothing more, and is handed on as it
/// came.
pub proof fn law_mint_is_published_after_initialization(
    plan: MintPlan,
    phase: MintPhase,
    event: Event,
    refusal: ExternalError,
)
    ensures
        mint_after_step(plan, MintPhase::Ready, Event::Start) == (
            MintPhase::Initializing,
            MintAction::Initialize(plan.initialize),
        ),
        mint_after_step(plan, phase, event).1 is Publish <==> phase == MintPhase::Initializing
            && event == Event::Succeeded,
        mint_after_step(plan, phase, event).1 is Created <==> phase == MintPhase::Publishing
            && event == Event::Succeeded,
        mint_after_step(plan, MintPhase::Initializing, Event::Failed(refusal)) == (
            MintPhase::Ready,
            MintAction::Failed(refusal),
        ),
        mint_after_step(plan, MintPhase::Publishing, Event::Failed(refusal)) == (
            MintPhase::Ready,
            MintAction::Failed(refusal),
        ),
{
}

/// A swap never pays out the whole reserve: where an amount is paid out, it
/// is less than the reserve that it is paid from.
pub proof fn law_swap_amount_is_below_reserve(amount_in: u64, reserve_in: u64, reserve_out: u64, fee: u64)
    requires
        swap_amount(amount_in, reserve_in, reserve_out, fee) is Ok,
    ensures
        swap_amount(amount_in, reserve_in, reserve_out, fee)->Ok_0 < reserve_out,
{
    let w = amount_in_with_fee(amount_in, fee);
    let n = swap_numerator(amount_in, reserve_out, fee);
    let d = swap_denominator(amount_in, reserve_in, fee);
    assert(w >= 0) by (nonlinear_arith)
        requires
            w == amount_in * (1000 - fee),
            fee <= 1000,
    ;
    assert(d > w);
    assert(n / d < reserve_out) by (nonlinear_arith)
        requires
            n == w * reserve_out,
            d > w,
            w >= 0,
            reserve_out > 0,
    ;
}

} // verus!
