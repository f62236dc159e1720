use vstd::prelude::*;
use crate::errors::BlinkError;
use crate::nft::NFT;
use crate::pubkey::Pubkey;
use crate::store::RecordId;
use crate::store::Store;
use crate::store::StoreView;
use crate::text::check_length;
use crate::text::fits;
use crate::text::SYMBOL_MAX;
use crate::text::TOKEN_NAME_MAX;

verus! {

/// The record of a collection of NFTs.
#[derive(Clone, Debug, PartialEq, Eq)]
pub struct Collection {
    pub owner: Pubkey,
    pub name: String,
    pub symbol: String,
    pub uri: String,
    pub created_at: i64,
}

impl Collection {
    /// The texts of the collection are within their limits.
    pub open spec fn wf(self) -> bool {
        collection_text_refusal(self.name@, self.symbol@) is None
    }
}

/// Who asks for a new collection.
#[derive(Clone, Copy, Debug, PartialEq, Eq)]
pub struct CreateCollection {
    pub owner: Pubkey,
}

/// Which NFT is to be added to which collection, and who asks.
#[derive(Clone, Copy, Debug, PartialEq, Eq)]
pub struct AddNFTToCollection {
    pub nft: RecordId,
    pub collection: RecordId,
    pub owner: Pubkey,
}

/// Why the texts of a collection are refused, if they are: a name of more
/// than 32 characters, else a symbol of more than 10.
pub open spec fn collection_text_refusal(name: Seq<char>, symbol: Seq<char>) -> Option<BlinkError> {
    if !fits(name, TOKEN_NAME_MAX as nat) {
        Some(BlinkError::NameTooLong)
    } else if !fits(symbol, SYMBOL_MAX as nat) {
        Some(BlinkError::SymbolTooLong)
    } else {
        None
    }
}

/// The record of a new collection.
pub open spec fn new_collection(ctx: CreateCollection, now: i64, name: String, symbol: String, uri: String) -> Collection {
    Collection { owner: ctx.owner, name, symbol, uri, created_at: now }
}

/// What creating a collection returns: the fresh id of its record, or the
/// reason why its texts are refused.
pub open spec fn result_of_create_collection(pre: StoreView<Collection>, name: String, symbol: String) -> Result<
    RecordId,
    BlinkError,
> {
    match collection_text_refusal(name@, symbol@) {
        Some(e) => Err(e),
        None => Ok(pre.fresh_id()),
    }
}

/// The store after a collection was asked for: with the new record under a
/// fresh id, or as before where the texts are refused.
pub open spec fn store_after_create_collection(
    pre: StoreView<Collection>,
    ctx: CreateCollection,
    now: i64,
    name: String,
    symbol: String,
    uri: String,
) -> StoreView<Collection> {
    if collection_text_refusal(name@, symbol@) is Some {
        pre
    } else {
        pre.insert(new_collection(ctx, now, name, symbol, uri))
    }
}

/// Creates a collection owned by `ctx.owner` and stamped with `now`, and
/// returns the id of its record. Where a text is too long, nothing is
/// stored.
pub fn create_collection(
    store: &mut Store<Collection>,
    ctx: &CreateCollection,
    now: i64,
    name: String,
    symbol: String,
    uri: String,
) -> (r: Result<RecordId, BlinkError>)
    ensures
        r == result_of_create_collection(old(store)@, name, symbol),
        final(store)@ == store_after_create_collection(old(store)@, *ctx, now, name, symbol, uri),
{
    match check_length(&name, TOKEN_NAME_MAX, BlinkError::NameTooLong) {
        Err(e) => {
            return Err(e);
        },
        Ok(_) => {},
    }
    match check_length(&symbol, SYMBOL_MAX, BlinkError::SymbolTooLong) {
        Err(e) => {
            return Err(e);
        },
        Ok(_) => {},
    }
    let record = Collection { owner: ctx.owner, name, symbol, uri, created_at: now };
    Ok(store.insert(record))
}

/// What adding an NFT to a collection returns. An unknown NFT is refused
/// with `NFTNotFound`, an unknown collection with `CollectionNotFound`, a
/// caller who does not own the collection with `Unauthorized`, and an NFT
/// that refers to a collection already, whichever it is, with
/// `InvalidCollection`: the reference is set once. Who owns the NFT plays no
/// part.
pub open spec fn result_of_add_nft_to_collection(
    nfts: StoreView<NFT>,
    collections: StoreView<Collection>,
    ctx: AddNFTToCollection,
) -> Result<(), BlinkError> {
    if nfts.get(ctx.nft) is None {
        Err(BlinkError::NFTNotFound)
    } else {
        match collections.get(ctx.collection) {
            None => Err(BlinkError::CollectionNotFound),
            Some(collection) => if collection.owner != ctx.owner {
                Err(BlinkError::Unauthorized)
            } else if nfts.records[ctx.nft].collection is Some {
                Err(BlinkError::InvalidCollection)
            } else {
                Ok(())
            },
        }
    }
}

/// The NFTs after one was asked to be added to a collection: its reference
/// names the collection where adding goes through; else the store is as
/// before.
pub open spec fn nfts_after_add_nft_to_collection(
    nfts: StoreView<NFT>,
    collections: StoreView<Collection>,
    ctx: AddNFTToCollection,
) -> StoreView<NFT> {
    if result_of_add_nft_to_collection(nfts, collections, ctx) is Ok {
        nfts.replace(ctx.nft, NFT { collection: Some(ctx.collection), ..nfts.records[ctx.nft] })
    } else {
        nfts
    }
}

/// Makes the NFT `ctx.nft` refer to the collection `ctx.collection`, on
/// behalf of `ctx.owner`, who has to own the collection. An NFT is added to
/// a collection once and stays there.
pub fn add_nft_to_collection(
    nfts: &mut Store<NFT>,
    collections: &Store<Collection>,
    ctx: &AddNFTToCollection,
) -> (r: Result<(), BlinkError>)
    ensures
        r == result_of_add_nft_to_collection(old(nfts)@, collections@, *ctx),
        final(nfts)@ == nfts_after_add_nft_to_collection(old(nfts)@, collections@, *ctx),
{
    let added = match nfts.get(ctx.nft) {
        None => {
            return Err(BlinkError::NFTNotFound);
        },
        Some(nft) => {
            match collections.get(ctx.collection) {
                None => {
                    return Err(BlinkError::CollectionNotFound);
                },
                Some(collection) => {
                    if collection.owner != ctx.owner {
                        return Err(BlinkError::Unauthorized);
                    }
                },
            }
            if nft.collection.is_some() {
                return Err(BlinkError::InvalidCollection);
            }
            NFT {
                owner: nft.owner,
                mint: nft.mint,
                name: nft.name.clone(),
                symbol: nft.symbol.clone(),
                uri: nft.uri.clone(),
                collection: Some(ctx.collection),
                created_at: nft.created_at,
            }
        },
    };
    let _ = nfts.replace(ctx.nft, added);
    Ok(())
}

} // verus!
