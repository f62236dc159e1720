use blink::collection::add_nft_to_collection;
use blink::collection::create_collection;
use blink::collection::AddNFTToCollection;
use blink::collection::Collection;
use blink::collection::CreateCollection;
use blink::errors::BlinkError;
use blink::ledger::ExternalError;
use blink::metadata::create_metadata_instruction;
use blink::metadata::AccountMeta;
use blink::metadata::Instruction;
use blink::metadata::MetadataAccounts;
use blink::ledger::Event;
use blink::mint::create_mint;
use blink::mint::mint_step;
use blink::mint::MintAction;
use blink::mint::MintPhase;
use blink::mint::CreateMint;
use blink::mint::InitializeMint;
use blink::nft::create_nft;
use blink::nft::finalize_nft;
use blink::nft::validate_nft_texts;
use blink::nft::CreateNFT;
use blink::nft::NFT;
use blink::pubkey::Pubkey;
use blink::store::Store;

fn key(b: u8) -> Pubkey {
    Pubkey { bytes: [b; 32] }
}

fn text(n: usize) -> String {
    "x".repeat(n)
}

fn meta(b: u8, is_signer: bool, is_writable: bool) -> AccountMeta {
    AccountMeta { pubkey: key(b), is_signer, is_writable }
}

const METADATA_PROGRAM: [u8; 32] = [
    11, 112, 101, 177, 227, 209, 124, 69, 56, 157, 82, 127, 107, 4, 195, 205, 88, 184, 108, 115,
    26, 160, 253, 181, 73, 182, 209, 188, 3, 248, 41, 70,
];

fn nft_ctx(owner: u8) -> CreateNFT {
    CreateNFT {
        owner: key(owner),
        system_program: key(11),
        token_program: key(12),
        metadata: key(13),
        mint: key(14),
        token_account: key(15),
        metadata_program: key(16),
        rent: key(17),
    }
}

fn stored_nft(store: &mut Store<NFT>, owner: u8) -> u64 {
    let pending = create_nft(
        &nft_ctx(owner),
        10,
        String::from("Art"),
        String::from("ART"),
        String::from("u"),
    )
    .unwrap();
    finalize_nft(store, pending, Ok(())).unwrap()
}

fn stored_collection(store: &mut Store<Collection>, owner: u8) -> u64 {
    create_collection(
        store,
        &CreateCollection { owner: key(owner) },
        20,
        String::from("Gallery"),
        String::from("GAL"),
        String::from("https://example.org/gallery.json"),
    )
    .unwrap()
}

fn expected_data(name: &str, symbol: &str, uri: &str, is_mutable: bool) -> Vec<u8> {
    let mut data = vec![33u8];
    for part in [name, symbol, uri] {
        data.extend_from_slice(&(part.len() as u32).to_le_bytes());
        data.extend_from_slice(part.as_bytes());
    }
    data.extend_from_slice(&[0, 0]); // seller fee
    data.extend_from_slice(&[0, 0, 0]); // no creators, no collection, no uses
    data.push(if is_mutable { 1 } else { 0 });
    data.push(0); // no collection details
    data
}

#[test]
fn metadata_instruction_names_the_metadata_program() {
    let accounts = MetadataAccounts {
        metadata: key(1),
        mint: key(2),
        mint_authority: key(3),
        payer: key(4),
        update_authority: key(5),
        update_authority_is_signer: false,
        system_program: key(6),
        rent: key(7),
    };
    let ix = create_metadata_instruction(
        &accounts,
        String::from("Name"),
        String::from("SYM"),
        String::from("https://example.org/a.json"),
        true,
    );
    assert_eq!(ix.program_id.bytes, METADATA_PROGRAM);
    assert_eq!(
        ix.accounts,
        vec![
            meta(1, false, true),
            meta(2, false, false),
            meta(3, true, false),
            meta(4, true, true),
            meta(5, false, false),
            meta(6, false, false),
            meta(7, false, false),
        ]
    );
    assert_eq!(
        ix.data,
        expected_data("Name", "SYM", "https://example.org/a.json", true)
    );
}

#[test]
fn metadata_instruction_data_follows_the_texts_and_the_mutability() {
    let accounts = MetadataAccounts {
        metadata: key(1),
        mint: key(2),
        mint_authority: key(3),
        payer: key(4),
        update_authority: key(5),
        update_authority_is_signer: true,
        system_program: key(6),
        rent: key(7),
    };
    let ix = create_metadata_instruction(
        &accounts,
        String::from("é"),
        String::new(),
        String::from("u"),
        false,
    );
    assert_eq!(
        ix.data,
        vec![33, 2, 0, 0, 0, 0xc3, 0xa9, 0, 0, 0, 0, 1, 0, 0, 0, b'u', 0, 0, 0, 0, 0, 0, 0]
    );
    assert_eq!(ix.accounts[4], meta(5, true, false));
}

#[test]
fn instruction_is_put_together_from_its_parts() {
    let ix = Instruction::from_parts(
        [9; 32],
        vec![([1; 32], true, false), ([2; 32], false, true)],
        vec![1, 2, 3],
    );
    assert_eq!(
        ix,
        Instruction {
            program_id: key(9),
            accounts: vec![meta(1, true, false), meta(2, false, true)],
            data: vec![1, 2, 3],
        }
    );
}

#[test]
fn created_nft_carries_its_record_and_its_publication() {
    let pending = create_nft(
        &nft_ctx(1),
        10,
        String::from("Art"),
        String::from("ART"),
        String::from("u"),
    )
    .unwrap();
    assert_eq!(
        pending.record,
        NFT {
            owner: key(1),
            mint: key(14),
            name: String::from("Art"),
            symbol: String::from("ART"),
            uri: String::from("u"),
            collection: None,
            created_at: 10,
        }
    );
    let ix = &pending.publish.instruction;
    assert_eq!(ix.program_id, key(16));
    assert_eq!(
        ix.accounts,
        vec![
            meta(13, false, true),
            meta(14, false, false),
            meta(1, true, false),
            meta(1, true, true),
            meta(1, true, false),
            meta(11, false, false),
            meta(17, false, false),
        ]
    );
    assert_eq!(ix.data, expected_data("Art", "ART", "u", true));
    assert_eq!(
        pending.publish.accounts,
        vec![key(13), key(14), key(1), key(16), key(12), key(11), key(17)]
    );
}

#[test]
fn published_nft_is_found_in_the_store() {
    let mut store = Store::new();
    let id = stored_nft(&mut store, 1);
    assert_eq!(id, 0);
    let nft = store.get(id).unwrap();
    assert_eq!(nft.owner, key(1));
    assert_eq!(nft.name, "Art");
    assert_eq!(nft.collection, None);
}

#[test]
fn nft_whose_publication_failed_is_not_stored() {
    let mut store = Store::new();
    let pending = create_nft(
        &nft_ctx(1),
        10,
        String::from("Art"),
        String::from("ART"),
        String::from("u"),
    )
    .unwrap();
    let refusal = ExternalError { code: 3 };
    assert_eq!(finalize_nft(&mut store, pending, Err(refusal)), Err(refusal));
    assert!(!store.contains(0));
    // no id was spent
    assert_eq!(stored_nft(&mut store, 1), 0);
}

#[test]
fn nft_name_of_thirty_three_characters_is_refused() {
    let r = create_nft(&nft_ctx(1), 10, text(33), text(10), String::new());
    assert_eq!(r, Err(BlinkError::NameTooLong));
    let r = create_nft(&nft_ctx(1), 10, text(32), text(10), String::new());
    assert!(r.is_ok());
}

#[test]
fn nft_symbol_of_eleven_characters_is_refused() {
    let r = create_nft(&nft_ctx(1), 10, text(32), text(11), String::new());
    assert_eq!(r, Err(BlinkError::SymbolTooLong));
    let r = create_nft(&nft_ctx(1), 10, text(33), text(11), String::new());
    assert_eq!(r, Err(BlinkError::NameTooLong));
}

#[test]
fn created_collection_is_found_with_its_fields() {
    let mut store = Store::new();
    let id = stored_collection(&mut store, 4);
    assert_eq!(
        store.get(id),
        Some(&Collection {
            owner: key(4),
            name: String::from("Gallery"),
            symbol: String::from("GAL"),
            uri: String::from("https://example.org/gallery.json"),
            created_at: 20,
        })
    );
}

#[test]
fn collection_with_overlong_texts_is_refused() {
    let mut store = Store::new();
    let ctx = CreateCollection { owner: key(4) };
    assert_eq!(
        create_collection(&mut store, &ctx, 1, text(33), text(3), String::new()),
        Err(BlinkError::NameTooLong)
    );
    assert_eq!(
        create_collection(&mut store, &ctx, 1, text(32), text(11), String::new()),
        Err(BlinkError::SymbolTooLong)
    );
    assert!(!store.contains(0));
    assert_eq!(
        create_collection(&mut store, &ctx, 1, text(32), text(10), text(500)),
        Ok(0)
    );
}

#[test]
fn collection_owner_adds_an_nft_of_somebody_else() {
    let mut nfts = Store::new();
    let mut collections = Store::new();
    let _ = stored_collection(&mut collections, 9);
    let nft = stored_nft(&mut nfts, 1);
    let collection = stored_collection(&mut collections, 4);
    assert_eq!(collection, 1);
    let r = add_nft_to_collection(
        &mut nfts,
        &collections,
        &AddNFTToCollection { nft, collection, owner: key(4) },
    );
    assert_eq!(r, Ok(()));
    assert_eq!(
        nfts.get(nft),
        Some(&NFT {
            owner: key(1),
            mint: key(14),
            name: String::from("Art"),
            symbol: String::from("ART"),
            uri: String::from("u"),
            collection: Some(1),
            created_at: 10,
        })
    );
}

#[test]
fn nft_owner_cannot_add_to_a_collection_of_somebody_else() {
    let mut nfts = Store::new();
    let mut collections = Store::new();
    let nft = stored_nft(&mut nfts, 1);
    let collection = stored_collection(&mut collections, 4);
    let r = add_nft_to_collection(
        &mut nfts,
        &collections,
        &AddNFTToCollection { nft, collection, owner: key(1) },
    );
    assert_eq!(r, Err(BlinkError::Unauthorized));
    assert_eq!(nfts.get(nft).unwrap().collection, None);
}

#[test]
fn adding_to_a_collection_needs_both_records() {
    let mut nfts = Store::new();
    let mut collections = Store::new();
    let nft = stored_nft(&mut nfts, 1);
    let collection = stored_collection(&mut collections, 4);
    let r = add_nft_to_collection(
        &mut nfts,
        &collections,
        &AddNFTToCollection { nft: nft + 1, collection, owner: key(4) },
    );
    assert_eq!(r, Err(BlinkError::NFTNotFound));
    let r = add_nft_to_collection(
        &mut nfts,
        &collections,
        &AddNFTToCollection { nft, collection: collection + 1, owner: key(4) },
    );
    assert_eq!(r, Err(BlinkError::CollectionNotFound));
    let r = add_nft_to_collection(
        &mut nfts,
        &collections,
        &AddNFTToCollection { nft: nft + 1, collection: collection + 1, owner: key(4) },
    );
    assert_eq!(r, Err(BlinkError::NFTNotFound));
}

#[test]
fn nft_is_added_to_a_collection_once() {
    let mut nfts = Store::new();
    let mut collections = Store::new();
    let nft = stored_nft(&mut nfts, 1);
    let first = stored_collection(&mut collections, 4);
    let second = stored_collection(&mut collections, 5);
    let r = add_nft_to_collection(
        &mut nfts,
        &collections,
        &AddNFTToCollection { nft, collection: first, owner: key(4) },
    );
    assert_eq!(r, Ok(()));
    let before = nfts.get(nft).cloned();

    // the owner of another collection cannot take it over
    let r = add_nft_to_collection(
        &mut nfts,
        &collections,
        &AddNFTToCollection { nft, collection: second, owner: key(5) },
    );
    assert_eq!(r, Err(BlinkError::InvalidCollection));
    assert_eq!(nfts.get(nft).cloned(), before);
    assert_eq!(nfts.get(nft).unwrap().collection, Some(first));

    // nor is it added again to the collection that it is in
    let r = add_nft_to_collection(
        &mut nfts,
        &collections,
        &AddNFTToCollection { nft, collection: first, owner: key(4) },
    );
    assert_eq!(r, Err(BlinkError::InvalidCollection));
    assert_eq!(nfts.get(nft).cloned(), before);
}

#[test]
fn stranger_is_refused_before_the_reference_is_looked_at() {
    let mut nfts = Store::new();
    let mut collections = Store::new();
    let nft = stored_nft(&mut nfts, 1);
    let first = stored_collection(&mut collections, 4);
    let second = stored_collection(&mut collections, 5);
    let r = add_nft_to_collection(
        &mut nfts,
        &collections,
        &AddNFTToCollection { nft, collection: first, owner: key(4) },
    );
    assert_eq!(r, Ok(()));
    let r = add_nft_to_collection(
        &mut nfts,
        &collections,
        &AddNFTToCollection { nft, collection: second, owner: key(4) },
    );
    assert_eq!(r, Err(BlinkError::Unauthorized));
    assert_eq!(nfts.get(nft).unwrap().collection, Some(first));
}

#[test]
fn nft_texts_are_checked_name_first() {
    assert_eq!(validate_nft_texts(&text(32), &text(10)), Ok(()));
    assert_eq!(validate_nft_texts(&text(33), &text(10)), Err(BlinkError::NameTooLong));
    assert_eq!(validate_nft_texts(&text(32), &text(11)), Err(BlinkError::SymbolTooLong));
    assert_eq!(validate_nft_texts(&text(33), &text(11)), Err(BlinkError::NameTooLong));
}

#[test]
fn mint_plan_initializes_then_publishes() {
    let ctx = CreateMint {
        mint_authority: key(1),
        mint: key(2),
        token_program: key(3),
        rent: key(4),
        system_program: key(5),
        metadata: key(6),
        token_metadata_program: key(7),
    };
    let plan = create_mint(
        &ctx,
        String::from("Coin"),
        String::from("CN"),
        String::from("https://example.org/coin.json"),
    );
    assert_eq!(
        plan.initialize,
        InitializeMint {
            program: key(3),
            mint: key(2),
            rent: key(4),
            decimals: 0,
            mint_authority: key(1),
            freeze_authority: Some(key(1)),
        }
    );
    let ix = &plan.publish.instruction;
    assert_eq!(ix.program_id, key(7));
    assert_eq!(
        ix.accounts,
        vec![
            meta(6, false, true),
            meta(2, false, false),
            meta(1, true, false),
            meta(1, true, true),
            meta(1, true, false),
            meta(5, false, false),
            meta(4, false, false),
        ]
    );
    assert_eq!(
        ix.data,
        expected_data("Coin", "CN", "https://example.org/coin.json", false)
    );
    assert_eq!(
        plan.publish.accounts,
        vec![key(6), key(2), key(1), key(7), key(3), key(5), key(4)]
    );
}

fn mint_ctx() -> CreateMint {
    CreateMint {
        mint_authority: key(1),
        mint: key(2),
        token_program: key(3),
        rent: key(4),
        system_program: key(5),
        metadata: key(6),
        token_metadata_program: key(7),
    }
}

#[test]
fn mint_is_initialized_before_its_metadata_is_published() {
    let plan = create_mint(&mint_ctx(), String::from("Coin"), String::from("CN"), String::new());
    let (phase, action) = mint_step(&plan, MintPhase::Ready, Event::Start);
    assert_eq!(phase, MintPhase::Initializing);
    assert_eq!(action, MintAction::Initialize(plan.initialize));
    let (phase, action) = mint_step(&plan, phase, Event::Succeeded);
    assert_eq!(phase, MintPhase::Publishing);
    assert_eq!(action, MintAction::Publish);
    let (phase, action) = mint_step(&plan, phase, Event::Succeeded);
    assert_eq!(phase, MintPhase::Ready);
    assert_eq!(action, MintAction::Created);
}

#[test]
fn mint_whose_initialization_failed_is_not_published() {
    let plan = create_mint(&mint_ctx(), String::from("Coin"), String::from("CN"), String::new());
    let (phase, _) = mint_step(&plan, MintPhase::Ready, Event::Start);
    let refusal = ExternalError { code: 6 };
    let (phase, action) = mint_step(&plan, phase, Event::Failed(refusal));
    assert_eq!(phase, MintPhase::Ready);
    assert_eq!(action, MintAction::Failed(refusal));
}

#[test]
fn mint_whose_publication_failed_hands_the_refusal_on() {
    let plan = create_mint(&mint_ctx(), String::from("Coin"), String::from("CN"), String::new());
    let (phase, _) = mint_step(&plan, MintPhase::Ready, Event::Start);
    let (phase, _) = mint_step(&plan, phase, Event::Succeeded);
    let refusal = ExternalError { code: 8 };
    let (phase, action) = mint_step(&plan, phase, Event::Failed(refusal));
    assert_eq!(phase, MintPhase::Ready);
    assert_eq!(action, MintAction::Failed(refusal));
}

#[test]
fn mint_event_that_does_not_belong_to_the_phase_is_refused() {
    let plan = create_mint(&mint_ctx(), String::from("Coin"), String::from("CN"), String::new());
    let misfits = [
        (MintPhase::Ready, Event::Succeeded),
        (MintPhase::Ready, Event::Failed(ExternalError { code: 1 })),
        (MintPhase::Initializing, Event::Start),
        (MintPhase::Publishing, Event::Start),
    ];
    for (phase, event) in misfits {
        assert_eq!(
            mint_step(&plan, phase, event),
            (MintPhase::Ready, MintAction::Rejected(BlinkError::InvalidMint))
        );
    }
}

#[test]
fn nft_with_refused_texts_takes_any_uri() {
    let r = create_nft(&nft_ctx(1), 10, text(32), text(11), text(5000));
    assert_eq!(r, Err(BlinkError::SymbolTooLong));
}

#[test]
fn metadata_instruction_carries_the_seller_fee_of_zero_and_long_texts() {
    let accounts = MetadataAccounts {
        metadata: key(1),
        mint: key(2),
        mint_authority: key(3),
        payer: key(4),
        update_authority: key(5),
        update_authority_is_signer: true,
        system_program: key(6),
        rent: key(7),
    };
    let uri = text(300);
    let ix = create_metadata_instruction(&accounts, String::new(), String::new(), uri, true);
    // 300 = 0x012c
    let mut expected = vec![33u8, 0, 0, 0, 0, 0, 0, 0, 0, 0x2c, 0x01, 0, 0];
    expected.extend_from_slice(&[b'x'; 300]);
    expected.extend_from_slice(&[0, 0, 0, 0, 0, 1, 0]);
    assert_eq!(ix.data, expected);
}

#[test]
fn mint_takes_texts_of_any_length() {
    let ctx = CreateMint {
        mint_authority: key(1),
        mint: key(2),
        token_program: key(3),
        rent: key(4),
        system_program: key(5),
        metadata: key(6),
        token_metadata_program: key(7),
    };
    let plan = create_mint(&ctx, text(100), text(40), text(1000));
    assert_eq!(plan.publish.instruction.data.len(), 1 + 4 + 100 + 4 + 40 + 4 + 1000 + 7);
}
