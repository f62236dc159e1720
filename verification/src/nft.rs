use vstd::prelude::*;
use crate::errors::BlinkError;
use crate::ledger::ExternalError;
use crate::metadata::create_metadata_instruction;
use crate::metadata::metadata_account_metas;
use crate::metadata::metadata_instruction_data;
use crate::metadata::Invocation;
use crate::metadata::MetadataAccounts;
use crate::pubkey::Pubkey;
use crate::store::RecordId;
use crate::store::Store;
use crate::text::check_length;
use crate::text::fits;
use crate::text::lemma_utf8_len_bounds;
use crate::text::utf8_len;
use crate::text::SYMBOL_MAX;
use crate::text::TOKEN_NAME_MAX;

verus! {

/// The record of an NFT. Its `collection` is unset until the owner of a
/// collection adds the NFT to it, and is not changed after that.
#[derive(Clone, Debug, PartialEq, Eq)]
pub struct NFT {
    pub owner: Pubkey,
    pub mint: Pubkey,
    pub name: String,
    pub symbol: String,
    pub uri: String,
    pub collection: Option<RecordId>,
    pub created_at: i64,
}

impl NFT {
    /// The texts of the NFT are within their limits.
    pub open spec fn wf(self) -> bool {
        nft_text_refusal(self.name@, self.symbol@) is None
    }
}

/// The accounts named by a request to create an NFT.
#[derive(Clone, Copy, Debug, PartialEq, Eq)]
pub struct CreateNFT {
    pub owner: Pubkey,
    pub system_program: Pubkey,
    pub token_program: Pubkey,
    pub metadata: Pubkey,
    pub mint: Pubkey,
    pub token_account: Pubkey,
    pub metadata_program: Pubkey,
    pub rent: Pubkey,
}

/// An NFT whose record is made but not stored yet: its metadata has to be
/// published first.
#[derive(Clone, Debug, PartialEq, Eq)]
pub struct PendingNFT {
    pub record: NFT,
    pub publish: Invocation,
}

/// The accounts of the metadata entry of the NFT that `ctx` asks for: the
/// owner pays, and is the authority over both the mint and the entry.
pub open spec fn nft_metadata_accounts(ctx: CreateNFT) -> MetadataAccounts {
    MetadataAccounts {
        metadata: ctx.metadata,
        mint: ctx.mint,
        mint_authority: ctx.owner,
        payer: ctx.owner,
        update_authority: ctx.owner,
        update_authority_is_signer: true,
        system_program: ctx.system_program,
        rent: ctx.rent,
    }
}

/// The accounts that go with the instruction that publishes the metadata of
/// an NFT.
pub open spec fn nft_publish_accounts(ctx: CreateNFT) -> Seq<Pubkey> {
    seq![
        ctx.metadata,
        ctx.mint,
        ctx.owner,
        ctx.metadata_program,
        ctx.token_program,
        ctx.system_program,
        ctx.rent,
    ]
}

/// Why the texts of an NFT are refused, if they are: a name of more than 32
/// characters, else a symbol of more than 10.
pub open spec fn nft_text_refusal(name: Seq<char>, symbol: Seq<char>) -> Option<BlinkError> {
    if !fits(name, TOKEN_NAME_MAX as nat) {
        Some(BlinkError::NameTooLong)
    } else if !fits(symbol, SYMBOL_MAX as nat) {
        Some(BlinkError::SymbolTooLong)
    } else {
        None
    }
}

/// The record of a new NFT, or the reason why the texts are refused.
pub open spec fn new_nft(ctx: CreateNFT, now: i64, name: String, symbol: String, uri: String) -> Result<
    NFT,
    BlinkError,
> {
    match nft_text_refusal(name@, symbol@) {
        Some(e) => Err(e),
        None => Ok(
            NFT {
                owner: ctx.owner,
                mint: ctx.mint,
                name,
                symbol,
                uri,
                collection: None,
                created_at: now,
            },
        ),
    }
}

/// Checks the name and the symbol of an NFT against their limits.
pub fn validate_nft_texts(name: &String, symbol: &String) -> (r: Result<(), BlinkError>)
    ensures
        nft_text_refusal(name@, symbol@) matches Some(e) ==> r == Err::<(), BlinkError>(e),
        nft_text_refusal(name@, symbol@) is None ==> r == Ok::<(), BlinkError>(()),
{
    match check_length(name, TOKEN_NAME_MAX, BlinkError::NameTooLong) {
        Err(e) => {
            return Err(e);
        },
        Ok(_) => {},
    }
    check_length(symbol, SYMBOL_MAX, BlinkError::SymbolTooLong)
}

/// Checks the texts of a new NFT and makes its record, owned by `ctx.owner`
/// and stamped with `now`, together with the invocation that publishes its
/// metadata: mutable, signed by the owner as update authority, and sent to
/// `ctx.metadata_program`. Nothing is stored: see [`finalize_nft`]. The uri
/// has to fit the instruction where the name and the symbol are accepted;
/// where they are refused, a uri of any length is taken.
pub fn create_nft(ctx: &CreateNFT, now: i64, name: String, symbol: String, uri: String) -> (r: Result<
    PendingNFT,
    BlinkError,
>)
    requires
        nft_text_refusal(name@, symbol@) is None ==> utf8_len(uri@) <= u32::MAX,
    ensures
        new_nft(*ctx, now, name, symbol, uri) matches Err(e) ==> r == Err::<PendingNFT, BlinkError>(e),
        new_nft(*ctx, now, name, symbol, uri) matches Ok(record) ==> {
            &&& r matches Ok(pending)
            &&& pending.record == record
            &&& pending.publish.instruction.program_id == ctx.metadata_program
            &&& pending.publish.instruction.accounts@ == metadata_account_metas(
                nft_metadata_accounts(*ctx),
            )
            &&& pending.publish.instruction.data@ == metadata_instruction_data(
                name@,
                symbol@,
                uri@,
                0u16,
                true,
            )
            &&& pending.publish.accounts@ == nft_publish_accounts(*ctx)
        },
{
    match validate_nft_texts(&name, &symbol) {
        Err(e) => {
            return Err(e);
        },
        Ok(_) => {},
    }
    proof {
        lemma_utf8_len_bounds(name@);
        lemma_utf8_len_bounds(symbol@);
    }
    let accounts = MetadataAccounts {
        metadata: ctx.metadata,
        mint: ctx.mint,
        mint_authority: ctx.owner,
        payer: ctx.owner,
        update_authority: ctx.owner,
        update_authority_is_signer: true,
        system_program: ctx.system_program,
        rent: ctx.rent,
    };
    let mut instruction = create_metadata_instruction(
        &accounts,
        name.clone(),
        symbol.clone(),
        uri.clone(),
        true,
    );
    instruction.program_id = ctx.metadata_program;
    let mut passed: Vec<Pubkey> = Vec::new();
    passed.push(ctx.metadata);
    passed.push(ctx.mint);
    passed.push(ctx.owner);
    passed.push(ctx.metadata_program);
    passed.push(ctx.token_program);
    passed.push(ctx.system_program);
    passed.push(ctx.rent);
    assert(passed@ =~= nft_publish_accounts(*ctx));
    let record = NFT {
        owner: ctx.owner,
        mint: ctx.mint,
        name,
        symbol,
        uri,
        collection: None,
        created_at: now,
    };
    Ok(PendingNFT { record, publish: Invocation { instruction, accounts: passed } })
}

/// Ends the creation of an NFT. Where its metadata was published, the record
/// is stored under a fresh id, which is returned. Where publishing failed,
/// the store stays as it is and the failure is returned as it came.
pub fn finalize_nft(store: &mut Store<NFT>, pending: PendingNFT, outcome: Result<(), ExternalError>) -> (r:
    Result<RecordId, ExternalError>)
    ensures
        r == old(store)@.settled_id(outcome),
        final(store)@ == old(store)@.settle(pending.record, outcome),
{
    store.settle(pending.record, outcome)
}

} // verus!
