use vstd::prelude::*;
use crate::errors::BlinkError;
use crate::ledger::Event;
use crate::ledger::ExternalError;
use crate::metadata::create_metadata_instruction;
use crate::metadata::metadata_account_metas;
use crate::metadata::metadata_instruction_data;
use crate::metadata::Invocation;
use crate::metadata::MetadataAccounts;
use crate::pubkey::Pubkey;
use crate::text::utf8_len;

verus! {

/// The accounts named by a request to create a mint.
#[derive(Clone, Copy, Debug, PartialEq, Eq)]
pub struct CreateMint {
    pub mint_authority: Pubkey,
    pub mint: Pubkey,
    pub token_program: Pubkey,
    pub rent: Pubkey,
    pub system_program: Pubkey,
    pub metadata: Pubkey,
    pub token_metadata_program: Pubkey,
}

/// An order to the token program: make `mint` a mint with the given number
/// of decimals and the given authorities.
#[derive(Clone, Copy, Debug, PartialEq, Eq)]
pub struct InitializeMint {
    pub program: Pubkey,
    pub mint: Pubkey,
    pub rent: Pubkey,
    pub decimals: u8,
    pub mint_authority: Pubkey,
    pub freeze_authority: Option<Pubkey>,
}

/// What has to be sent to create a mint: the order that initializes it and
/// the invocation that publishes its metadata. [`mint_step`] says when each
/// is sent.
#[derive(Clone, Debug, PartialEq, Eq)]
pub struct MintPlan {
    pub initialize: InitializeMint,
    pub publish: Invocation,
}

/// The order that initializes the mint that `ctx` asks for: no decimals, and
/// the mint authority may also freeze.
pub open spec fn mint_initialization(ctx: CreateMint) -> InitializeMint {
    InitializeMint {
        program: ctx.token_program,
        mint: ctx.mint,
        rent: ctx.rent,
        decimals: 0,
        mint_authority: ctx.mint_authority,
        freeze_authority: Some(ctx.mint_authority),
    }
}

/// The accounts of the metadata entry of the mint that `ctx` asks for: the
/// mint authority pays and is the authority over the entry.
pub open spec fn mint_metadata_accounts(ctx: CreateMint) -> MetadataAccounts {
    MetadataAccounts {
        metadata: ctx.metadata,
        mint: ctx.mint,
        mint_authority: ctx.mint_authority,
        payer: ctx.mint_authority,
        update_authority: ctx.mint_authority,
        update_authority_is_signer: true,
        system_program: ctx.system_program,
        rent: ctx.rent,
    }
}

/// The accounts that go with the instruction that publishes the metadata of
/// a mint.
pub open spec fn mint_publish_accounts(ctx: CreateMint) -> Seq<Pubkey> {
    seq![
        ctx.metadata,
        ctx.mint,
        ctx.mint_authority,
        ctx.token_metadata_program,
        ctx.token_program,
        ctx.system_program,
        ctx.rent,
    ]
}

/// Plans the creation of a mint: the order that initializes it, and the
/// invocation that publishes its metadata, immutable and sent to
/// `ctx.token_metadata_program`. The texts are taken as they are.
pub fn create_mint(ctx: &CreateMint, name: String, symbol: String, uri: String) -> (plan: MintPlan)
    requires
        utf8_len(name@) <= u32::MAX,
        utf8_len(symbol@) <= u32::MAX,
        utf8_len(uri@) <= u32::MAX,
    ensures
        plan.initialize == mint_initialization(*ctx),
        plan.publish.instruction.program_id == ctx.token_metadata_program,
        plan.publish.instruction.accounts@ == metadata_account_metas(mint_metadata_accounts(*ctx)),
        plan.publish.instruction.data@ == metadata_instruction_data(name@, symbol@, uri@, 0u16, false),
        plan.publish.accounts@ == mint_publish_accounts(*ctx),
{
    let initialize = InitializeMint {
        program: ctx.token_program,
        mint: ctx.mint,
        rent: ctx.rent,
        decimals: 0,
        mint_authority: ctx.mint_authority,
        freeze_authority: Some(ctx.mint_authority),
    };
    let accounts = MetadataAccounts {
        metadata: ctx.metadata,
        mint: ctx.mint,
        mint_authority: ctx.mint_authority,
        payer: ctx.mint_authority,
        update_authority: ctx.mint_authority,
        update_authority_is_signer: true,
        system_program: ctx.system_program,
        rent: ctx.rent,
    };
    let mut instruction = create_metadata_instruction(&accounts, name, symbol, uri, false);
    instruction.program_id = ctx.token_metadata_program;
    let mut passed: Vec<Pubkey> = Vec::new();
    passed.push(ctx.metadata);
    passed.push(ctx.mint);
    passed.push(ctx.mint_authority);
    passed.push(ctx.token_metadata_program);
    passed.push(ctx.token_program);
    passed.push(ctx.system_program);
    passed.push(ctx.rent);
    assert(passed@ =~= mint_publish_accounts(*ctx));
    MintPlan { initialize, publish: Invocation { instruction, accounts: passed } }
}

/// Where the creation of a mint stands.
#[derive(Clone, Copy, Debug, PartialEq, Eq, Structural)]
pub enum MintPhase {
    /// Nothing has been sent.
    Ready,
    /// The initialization of the mint has been ordered.
    Initializing,
    /// The mint is initialized and the publication of its metadata has been
    /// ordered.
    Publishing,
}

/// What the caller has to do after a step of the creation of a mint.
#[derive(Clone, Copy, Debug, PartialEq, Eq)]
pub enum MintAction {
    /// Send this order to the token program and report how it ended.
    Initialize(InitializeMint),
    /// Send the invocation of the plan and report how it ended.
    Publish,
    /// The mint is initialized and its metadata is published.
    Created,
    /// An outside program refused what was last sent; nothing more is sent.
    Failed(ExternalError),
    /// The event does not belong to the phase; nothing is sent.
    Rejected(BlinkError),
}

/// The phase and the action after a step of the creation of a mint. The
/// mint is initialized first, and its metadata is published only once the
/// initialization went through. A refusal ends the creation and is handed
/// on as it came; an event that does not belong to the phase is refused
/// with `InvalidMint`.
pub open spec fn mint_after_step(plan: MintPlan, phase: MintPhase, event: Event) -> (
    MintPhase,
    MintAction,
) {
    match (phase, event) {
        (MintPhase::Ready, Event::Start) => (
            MintPhase::Initializing,
            MintAction::Initialize(plan.initialize),
        ),
        (MintPhase::Initializing, Event::Succeeded) => (MintPhase::Publishing, MintAction::Publish),
        (MintPhase::Initializing, Event::Failed(e)) => (MintPhase::Ready, MintAction::Failed(e)),
        (MintPhase::Publishing, Event::Succeeded) => (MintPhase::Ready, MintAction::Created),
        (MintPhase::Publishing, Event::Failed(e)) => (MintPhase::Ready, MintAction::Failed(e)),
        _ => (MintPhase::Ready, MintAction::Rejected(BlinkError::InvalidMint)),
    }
}

/// One step of the creation of a mint. The caller starts with the phase
/// `Ready` and the event `Start`, sends what is ordered, and comes back with
/// the phase that was returned and the event that tells how sending ended,
/// until the action orders nothing more.
pub fn mint_step(plan: &MintPlan, phase: MintPhase, event: Event) -> (r: (MintPhase, MintAction))
    ensures
        r == mint_after_step(*plan, phase, event),
{
    match (phase, event) {
        (MintPhase::Ready, Event::Start) => (
            MintPhase::Initializing,
            MintAction::Initialize(plan.initialize),
        ),
        (MintPhase::Initializing, Event::Succeeded) => (MintPhase::Publishing, MintAction::Publish),
        (MintPhase::Initializing, Event::Failed(e)) => (MintPhase::Ready, MintAction::Failed(e)),
        (MintPhase::Publishing, Event::Succeeded) => (MintPhase::Ready, MintAction::Created),
        (MintPhase::Publishing, Event::Failed(e)) => (MintPhase::Ready, MintAction::Failed(e)),
        _ => (MintPhase::Ready, MintAction::Rejected(BlinkError::InvalidMint)),
    }
}

} // verus!
