use vstd::prelude::*;
use crate::errors::BlinkError;
use crate::pubkey::Pubkey;
use crate::store::RecordId;
use crate::store::Store;
use crate::store::StoreView;
use crate::text::check_length;
use crate::text::fits;
use crate::text::BLINK_DESCRIPTION_MAX;
use crate::text::BLINK_NAME_MAX;

verus! {

/// What a profile card is for.
#[derive(Clone, Copy, Debug, PartialEq, Eq, Structural)]
pub enum BlinkType {
    Standard,
    NFT,
    Donation,
    Gift,
    Payment,
    Poll,
}

/// The record of a profile card. Its owner, its kind and the time of its
/// creation never change.
#[derive(Clone, Debug, PartialEq, Eq)]
pub struct Blink {
    pub owner: Pubkey,
    pub name: String,
    pub description: String,
    pub image_url: String,
    pub blink_type: BlinkType,
    pub created_at: i64,
    pub updated_at: i64,
}

impl Blink {
    /// The texts of the card are within their limits.
    pub open spec fn wf(self) -> bool {
        blink_text_refusal(self.name@, self.description@) is None
    }
}

/// Who asks for a new profile card.
#[derive(Clone, Copy, Debug, PartialEq, Eq)]
pub struct CreateBlink {
    pub owner: Pubkey,
}

/// Which profile card is to be changed, and who asks.
#[derive(Clone, Copy, Debug, PartialEq, Eq)]
pub struct UpdateBlink {
    pub blink: RecordId,
    pub owner: Pubkey,
}

/// Which profile card is to be deleted, and who asks.
#[derive(Clone, Copy, Debug, PartialEq, Eq)]
pub struct DeleteBlink {
    pub blink: RecordId,
    pub owner: Pubkey,
}

/// Why the texts of a profile card are refused, if they are: a name of more
/// than 50 characters, else a description of more than 200.
pub open spec fn blink_text_refusal(name: Seq<char>, description: Seq<char>) -> Option<BlinkError> {
    if !fits(name, BLINK_NAME_MAX as nat) {
        Some(BlinkError::NameTooLong)
    } else if !fits(description, BLINK_DESCRIPTION_MAX as nat) {
        Some(BlinkError::DescriptionTooLong)
    } else {
        None
    }
}

/// The record of a new profile card.
pub open spec fn new_blink(
    ctx: CreateBlink,
    now: i64,
    name: String,
    description: String,
    blink_type: BlinkType,
    image_url: String,
) -> Blink {
    Blink {
        owner: ctx.owner,
        name,
        description,
        image_url,
        blink_type,
        created_at: now,
        updated_at: now,
    }
}

/// What creating a profile card returns: the fresh id of its record, or the
/// reason why its texts are refused.
pub open spec fn result_of_create_blink(pre: StoreView<Blink>, name: String, description: String) -> Result<
    RecordId,
    BlinkError,
> {
    match blink_text_refusal(name@, description@) {
        Some(e) => Err(e),
        None => Ok(pre.fresh_id()),
    }
}

/// The store after a profile card was asked for: with the new record under
/// a fresh id, or as before where the texts are refused.
pub open spec fn store_after_create_blink(
    pre: StoreView<Blink>,
    ctx: CreateBlink,
    now: i64,
    name: String,
    description: String,
    blink_type: BlinkType,
    image_url: String,
) -> StoreView<Blink> {
    if blink_text_refusal(name@, description@) is Some {
        pre
    } else {
        pre.insert(new_blink(ctx, now, name, description, blink_type, image_url))
    }
}

/// Creates a profile card owned by `ctx.owner` and stamped with `now`, and
/// returns the id of its record. Where a text is too long, nothing is
/// stored.
pub fn create_blink(
    store: &mut Store<Blink>,
    ctx: &CreateBlink,
    now: i64,
    name: String,
    description: String,
    blink_type: BlinkType,
    image_url: String,
) -> (r: Result<RecordId, BlinkError>)
    ensures
        r == result_of_create_blink(old(store)@, name, description),
        final(store)@ == store_after_create_blink(
            old(store)@,
            *ctx,
            now,
            name,
            description,
            blink_type,
            image_url,
        ),
{
    match check_length(&name, BLINK_NAME_MAX, BlinkError::NameTooLong) {
        Err(e) => {
            return Err(e);
        },
        Ok(_) => {},
    }
    match check_length(&description, BLINK_DESCRIPTION_MAX, BlinkError::DescriptionTooLong) {
        Err(e) => {
            return Err(e);
        },
        Ok(_) => {},
    }
    let record = Blink {
        owner: ctx.owner,
        name,
        description,
        image_url,
        blink_type,
        created_at: now,
        updated_at: now,
    };
    Ok(store.insert(record))
}

/// What changing a profile card returns. An unknown id is refused with
/// `BlinkNotFound`, a caller who is not the owner with `Unauthorized`; else
/// the texts are held to the limits that hold at creation.
pub open spec fn result_of_update_blink(
    pre: StoreView<Blink>,
    ctx: UpdateBlink,
    name: String,
    description: String,
) -> Result<(), BlinkError> {
    match pre.get(ctx.blink) {
        None => Err(BlinkError::BlinkNotFound),
        Some(blink) => if blink.owner != ctx.owner {
            Err(BlinkError::Unauthorized)
        } else {
            match blink_text_refusal(name@, description@) {
                Some(e) => Err(e),
                None => Ok(()),
            }
        },
    }
}

/// A profile card after its texts were replaced at `now`.
pub open spec fn updated_blink(blink: Blink, now: i64, name: String, description: String, image_url: String) -> Blink {
    Blink { name, description, image_url, updated_at: now, ..blink }
}

/// The store after a change of a profile card: the three texts and the time
/// of the last change are replaced where the change goes through; else the
/// store is as before.
pub open spec fn store_after_update_blink(
    pre: StoreView<Blink>,
    ctx: UpdateBlink,
    now: i64,
    name: String,
    description: String,
    image_url: String,
) -> StoreView<Blink> {
    if result_of_update_blink(pre, ctx, name, description) is Ok {
        pre.replace(ctx.blink, updated_blink(pre.records[ctx.blink], now, name, description, image_url))
    } else {
        pre
    }
}

/// Replaces the name, the description and the image of the profile card
/// `ctx.blink` on behalf of `ctx.owner`, and stamps the change with `now`.
pub fn update_blink(
    store: &mut Store<Blink>,
    ctx: &UpdateBlink,
    now: i64,
    name: String,
    description: String,
    image_url: String,
) -> (r: Result<(), BlinkError>)
    ensures
        r == result_of_update_blink(old(store)@, *ctx, name, description),
        final(store)@ == store_after_update_blink(
            old(store)@,
            *ctx,
            now,
            name,
            description,
            image_url,
        ),
{
    let (owner, blink_type, created_at) = match store.get(ctx.blink) {
        None => {
            return Err(BlinkError::BlinkNotFound);
        },
        Some(blink) => (blink.owner, blink.blink_type, blink.created_at),
    };
    if owner != ctx.owner {
        return Err(BlinkError::Unauthorized);
    }
    match check_length(&name, BLINK_NAME_MAX, BlinkError::NameTooLong) {
        Err(e) => {
            return Err(e);
        },
        Ok(_) => {},
    }
    match check_length(&description, BLINK_DESCRIPTION_MAX, BlinkError::DescriptionTooLong) {
        Err(e) => {
            return Err(e);
        },
        Ok(_) => {},
    }
    let record = Blink {
        owner,
        name,
        description,
        image_url,
        blink_type,
        created_at,
        updated_at: now,
    };
    let _ = store.replace(ctx.blink, record);
    Ok(())
}

/// What deleting a profile card returns: the owner, to whom the storage
/// allowance of the record goes back. An unknown id is refused with
/// `BlinkNotFound`, a caller who is not the owner with `Unauthorized`.
pub open spec fn result_of_delete_blink(pre: StoreView<Blink>, ctx: DeleteBlink) -> Result<Pubkey, BlinkError> {
    match pre.get(ctx.blink) {
        None => Err(BlinkError::BlinkNotFound),
        Some(blink) => if blink.owner != ctx.owner {
            Err(BlinkError::Unauthorized)
        } else {
            Ok(blink.owner)
        },
    }
}

/// The store after a profile card was asked to be deleted: without the
/// record where the deletion goes through, else as before.
pub open spec fn store_after_delete_blink(pre: StoreView<Blink>, ctx: DeleteBlink) -> StoreView<Blink> {
    if result_of_delete_blink(pre, ctx) is Ok {
        pre.remove(ctx.blink)
    } else {
        pre
    }
}

/// Deletes the profile card `ctx.blink` on behalf of `ctx.owner`.
pub fn delete_blink(store: &mut Store<Blink>, ctx: &DeleteBlink) -> (r: Result<Pubkey, BlinkError>)
    ensures
        r == result_of_delete_blink(old(store)@, *ctx),
        final(store)@ == store_after_delete_blink(old(store)@, *ctx),
{
    let owner = match store.get(ctx.blink) {
        None => {
            return Err(BlinkError::BlinkNotFound);
        },
        Some(blink) => blink.owner,
    };
    if owner != ctx.owner {
        return Err(BlinkError::Unauthorized);
    }
    let _ = store.remove(ctx.blink);
    Ok(owner)
}

} // verus!
