use vstd::prelude::*;
use mpl_token_metadata::instructions::CreateMetadataAccountV3;
use mpl_token_metadata::instructions::CreateMetadataAccountV3InstructionArgs;
use mpl_token_metadata::types::DataV2;
use crate::pubkey::Pubkey;
use crate::text::utf8_len;
use vstd::utf8::encode_utf8;

verus! {

/// One account that an instruction touches, and how.
#[derive(Clone, Copy, Debug, PartialEq, Eq)]
pub struct AccountMeta {
    pub pubkey: Pubkey,
    pub is_signer: bool,
    pub is_writable: bool,
}

/// A request to another program: which program, on which accounts, with
/// which bytes.
#[derive(Clone, Debug, PartialEq, Eq)]
pub struct Instruction {
    pub program_id: Pubkey,
    pub accounts: Vec<AccountMeta>,
    pub data: Vec<u8>,
}

/// An instruction together with the accounts that must be handed to the
/// runtime when the instruction is sent.
#[derive(Clone, Debug, PartialEq, Eq)]
pub struct Invocation {
    pub instruction: Instruction,
    pub accounts: Vec<Pubkey>,
}

/// The accounts that take part in creating a metadata entry for a mint.
#[derive(Clone, Copy, Debug, PartialEq, Eq)]
pub struct MetadataAccounts {
    pub metadata: Pubkey,
    pub mint: Pubkey,
    pub mint_authority: Pubkey,
    pub payer: Pubkey,
    pub update_authority: Pubkey,
    pub update_authority_is_signer: bool,
    pub system_program: Pubkey,
    pub rent: Pubkey,
}

/// The bytes of the address of the token metadata program, which is written
/// `metaqbxxUerdq28cj1RbAWkYQm3ybzjb6a8bt518x1s` in base 58.
pub open spec fn token_metadata_program_id() -> Seq<u8> {
    seq![
        11u8, 112u8, 101u8, 177u8, 227u8, 209u8, 124u8, 69u8,
        56u8, 157u8, 82u8, 127u8, 107u8, 4u8, 195u8, 205u8,
        88u8, 184u8, 108u8, 115u8, 26u8, 160u8, 253u8, 181u8,
        73u8, 182u8, 209u8, 188u8, 3u8, 248u8, 41u8, 70u8,
    ]
}

/// The four bytes of a number below 2^32, lowest first.
pub open spec fn le_u32(n: nat) -> Seq<u8> {
    seq![
        (n % 256) as u8,
        (n / 0x100 % 256) as u8,
        (n / 0x1_0000 % 256) as u8,
        (n / 0x100_0000 % 256) as u8,
    ]
}

/// A text as an instruction carries it: the number of its UTF-8 bytes, in
/// four bytes, then those bytes.
pub open spec fn encoded_text(text: Seq<char>) -> Seq<u8> {
    le_u32(utf8_len(text)) + encode_utf8(text)
}

/// The bytes that ask the token metadata program to create a metadata entry:
/// the number of the request, 33; the name, the symbol and the uri; the
/// seller fee in two bytes, lowest first; one zero byte each for no
/// creators, no collection and no uses; one byte for the mutability; and a
/// zero byte for no collection details.
pub open spec fn metadata_instruction_data(
    name: Seq<char>,
    symbol: Seq<char>,
    uri: Seq<char>,
    seller_fee_basis_points: u16,
    is_mutable: bool,
) -> Seq<u8> {
    seq![33u8] + encoded_text(name) + encoded_text(symbol) + encoded_text(uri) + seq![
        (seller_fee_basis_points % 256) as u8,
        (seller_fee_basis_points / 256) as u8,
    ] + seq![0u8, 0u8, 0u8] + seq![if is_mutable { 1u8 } else { 0u8 }] + seq![0u8]
}

/// The accounts of an instruction that creates a metadata entry, each with
/// its signer flag and its writable flag, in the order in which the token
/// metadata program expects them.
pub open spec fn metadata_account_list(accounts: MetadataAccounts) -> Seq<([u8; 32], bool, bool)> {
    seq![
        (accounts.metadata.bytes, false, true),
        (accounts.mint.bytes, false, false),
        (accounts.mint_authority.bytes, true, false),
        (accounts.payer.bytes, true, true),
        (accounts.update_authority.bytes, accounts.update_authority_is_signer, false),
        (accounts.system_program.bytes, false, false),
        (accounts.rent.bytes, false, false),
    ]
}

/// Calls `CreateMetadataAccountV3::instruction` of mpl_token_metadata with
/// the rent account present and with no creators, collection, uses or
/// collection details, and hands back the instruction's program id, its
/// accounts as (key, signer, writable) and its data.
///
/// Trusted: the program id is the metadata program's own; the accounts are
/// the seven that the builder pushes, in its order and with its flags; the
/// data is the request number followed by the arguments as borsh writes
/// them, field by field. The builder fails on a text of more than `u32::MAX`
/// bytes, which `requires` excludes.
#[verifier::external_body]
fn build_create_metadata(
    accounts: &MetadataAccounts,
    name: String,
    symbol: String,
    uri: String,
    seller_fee_basis_points: u16,
    is_mutable: bool,
) -> (raw: ([u8; 32], Vec<([u8; 32], bool, bool)>, Vec<u8>))
    requires
        utf8_len(name@) <= u32::MAX,
        utf8_len(symbol@) <= u32::MAX,
        utf8_len(uri@) <= u32::MAX,
    ensures
        raw.0@ == token_metadata_program_id(),
        raw.1@ == metadata_account_list(*accounts),
        raw.2@ == metadata_instruction_data(
            name@,
            symbol@,
            uri@,
            seller_fee_basis_points,
            is_mutable,
        ),
{
    let builder = CreateMetadataAccountV3 {
        metadata: accounts.metadata.bytes.into(), mint: accounts.mint.bytes.into(),
        mint_authority: accounts.mint_authority.bytes.into(), payer: accounts.payer.bytes.into(),
        update_authority: (accounts.update_authority.bytes.into(), accounts.update_authority_is_signer),
        system_program: accounts.system_program.bytes.into(), rent: Some(accounts.rent.bytes.into()),
    };
    let data = DataV2 { name, symbol, uri, seller_fee_basis_points, creators: None, collection: None, uses: None };
    let ix = builder.instruction(CreateMetadataAccountV3InstructionArgs { data, is_mutable, collection_details: None });
    let program_id = ix.program_id.to_bytes();
    (program_id, ix.accounts.iter().map(|m| (m.pubkey.to_bytes(), m.is_signer, m.is_writable)).collect(), ix.data)
}

impl AccountMeta {
    /// The account described by a key, a signer flag and a writable flag.
    pub open spec fn of(raw: ([u8; 32], bool, bool)) -> AccountMeta {
        AccountMeta { pubkey: Pubkey { bytes: raw.0 }, is_signer: raw.1, is_writable: raw.2 }
    }
}

impl Instruction {
    /// Puts together an instruction from a program id, accounts given as
    /// (key, signer, writable), and data.
    pub fn from_parts(program_id: [u8; 32], accounts: Vec<([u8; 32], bool, bool)>, data: Vec<u8>) -> (ix:
        Instruction)
        ensures
            ix.program_id.bytes == program_id,
            ix.accounts@ == accounts@.map_values(|raw: ([u8; 32], bool, bool)| AccountMeta::of(raw)),
            ix.data@ == data@,
    {
        let mut metas: Vec<AccountMeta> = Vec::new();
        let mut i: usize = 0;
        while i < accounts.len()
            invariant
                i <= accounts.len(),
                metas@.len() == i,
                forall|j: int| 0 <= j < i ==> metas@[j] == AccountMeta::of(accounts@[j]),
            decreases accounts.len() - i,
        {
            let raw = accounts[i];
            metas.push(AccountMeta { pubkey: Pubkey { bytes: raw.0 }, is_signer: raw.1, is_writable: raw.2 });
            i += 1;
        }
        assert(metas@ =~= accounts@.map_values(|raw: ([u8; 32], bool, bool)| AccountMeta::of(raw)));
        Instruction { program_id: Pubkey { bytes: program_id }, accounts: metas, data }
    }
}

/// The accounts of an instruction that creates a metadata entry.
pub open spec fn metadata_account_metas(accounts: MetadataAccounts) -> Seq<AccountMeta> {
    seq![
        AccountMeta { pubkey: accounts.metadata, is_signer: false, is_writable: true },
        AccountMeta { pubkey: accounts.mint, is_signer: false, is_writable: false },
        AccountMeta { pubkey: accounts.mint_authority, is_signer: true, is_writable: false },
        AccountMeta { pubkey: accounts.payer, is_signer: true, is_writable: true },
        AccountMeta {
            pubkey: accounts.update_authority,
            is_signer: accounts.update_authority_is_signer,
            is_writable: false,
        },
        AccountMeta { pubkey: accounts.system_program, is_signer: false, is_writable: false },
        AccountMeta { pubkey: accounts.rent, is_signer: false, is_writable: false },
    ]
}

/// The instruction that asks the token metadata program to create a
/// metadata entry for a mint, with a seller fee of zero.
pub fn create_metadata_instruction(
    accounts: &MetadataAccounts,
    name: String,
    symbol: String,
    uri: String,
    is_mutable: bool,
) -> (ix: Instruction)
    requires
        utf8_len(name@) <= u32::MAX,
        utf8_len(symbol@) <= u32::MAX,
        utf8_len(uri@) <= u32::MAX,
    ensures
        ix.program_id.bytes@ == token_metadata_program_id(),
        ix.accounts@ == metadata_account_metas(*accounts),
        ix.data@ == metadata_instruction_data(name@, symbol@, uri@, 0u16, is_mutable),
{
    let raw = build_create_metadata(accounts, name, symbol, uri, 0, is_mutable);
    let ix = Instruction::from_parts(raw.0, raw.1, raw.2);
    assert(ix.accounts@ =~= metadata_account_metas(*accounts));
    ix
}

} // verus!
