use anchor_compressed_nft::instructions::AnchorCreateTree;
use anchor_compressed_nft::instructions::CompressedNFTMinted;
use anchor_compressed_nft::instructions::CpiOutcome;
use anchor_compressed_nft::instructions::ErrorCode;
use anchor_compressed_nft::instructions::MintCompressedNft;
use anchor_compressed_nft::instructions::TreeCreated;
use anchor_compressed_nft::instructions::anchor_create_tree;
use anchor_compressed_nft::instructions::create_tree_request;
use anchor_compressed_nft::instructions::mint_compressed_nft;
use anchor_compressed_nft::instructions::mint_to_collection_request;
use anchor_compressed_nft::keys::Pubkey;
use anchor_compressed_nft::metadata::Collection;
use anchor_compressed_nft::metadata::MetadataAccount;
use anchor_compressed_nft::metadata::MetadataData;
use anchor_compressed_nft::metadata::TokenProgramVersion;
use anchor_compressed_nft::metadata::TokenStandard;
use anchor_compressed_nft::metadata::build_metadata_args;

fn key(b: u8) -> Pubkey {
    Pubkey { bytes: [b; 32] }
}

fn create_tree_accounts() -> AnchorCreateTree {
    AnchorCreateTree {
        payer: key(1),
        pda: key(2),
        tree_authority: key(3),
        merkle_tree: key(4),
        log_wrapper: key(5),
        system_program: key(6),
        bubblegum_program: key(7),
        compression_program: key(8),
    }
}

fn mint_accounts() -> MintCompressedNft {
    MintCompressedNft {
        payer: key(11),
        pda: key(12),
        tree_authority: key(13),
        merkle_tree: key(14),
        bubblegum_signer: key(15),
        log_wrapper: key(16),
        compression_program: key(17),
        bubblegum_program: key(18),
        token_metadata_program: key(19),
        system_program: key(20),
        collection_mint: key(21),
        collection_metadata: MetadataAccount {
            key: key(22),
            data: MetadataData {
                name: String::from("My Collection"),
                symbol: String::from("MYC"),
                uri: String::from("https://example.org/collection.json"),
            },
        },
        edition_account: key(23),
    }
}

#[test]
fn create_tree_success_emits_one_event_with_supplied_addresses() {
    let accounts = create_tree_accounts();
    let r = anchor_create_tree(&accounts, CpiOutcome::Succeeded);
    assert_eq!(
        r,
        Ok(TreeCreated {
            tree_authority: key(3),
            merkle_tree: key(4),
            payer: key(1),
        })
    );
}

#[test]
fn create_tree_failure_surfaces_its_error_and_no_event() {
    let accounts = create_tree_accounts();
    let r = anchor_create_tree(&accounts, CpiOutcome::Failed);
    assert_eq!(r, Err(ErrorCode::CreateTreeCpiFailed));
}

#[test]
fn mint_success_emits_event_with_tree_authority_and_leaf_owner() {
    let accounts = mint_accounts();
    let r = mint_compressed_nft(&accounts, CpiOutcome::Succeeded);
    assert_eq!(
        r,
        Ok(CompressedNFTMinted {
            tree_authority: key(13),
            leaf_owner: key(11),
        })
    );
}

#[test]
fn mint_failure_surfaces_its_error_and_no_event() {
    let accounts = mint_accounts();
    let r = mint_compressed_nft(&accounts, CpiOutcome::Failed);
    assert_eq!(r, Err(ErrorCode::MintCompressedNFTFailed));
}

#[test]
fn create_tree_request_forwards_accounts_and_parameters() {
    let accounts = create_tree_accounts();
    let r = create_tree_request(&accounts, 14, 64, 254);
    assert_eq!(r.program, key(7));
    assert_eq!(r.tree_authority, key(3));
    assert_eq!(r.merkle_tree, key(4));
    assert_eq!(r.payer, key(1));
    assert_eq!(r.tree_creator, key(2));
    assert_eq!(r.log_wrapper, key(5));
    assert_eq!(r.compression_program, key(8));
    assert_eq!(r.system_program, key(6));
    assert_eq!(r.signer_seeds, vec![b"AUTH".to_vec(), vec![254u8]]);
    assert_eq!(r.max_depth, 14);
    assert_eq!(r.max_buffer_size, 64);
    assert_eq!(r.public, Some(false));
}

#[test]
fn mint_request_signs_and_delegates_with_the_derived_authority() {
    let accounts = mint_accounts();
    let r = mint_to_collection_request(&accounts, 255);
    assert_eq!(r.program, key(18));
    assert_eq!(r.tree_authority, key(13));
    assert_eq!(r.leaf_owner, key(11));
    assert_eq!(r.leaf_delegate, key(11));
    assert_eq!(r.merkle_tree, key(14));
    assert_eq!(r.payer, key(11));
    assert_eq!(r.tree_delegate, key(12));
    assert_eq!(r.collection_authority, key(12));
    assert_eq!(r.collection_authority_record_pda, key(18));
    assert_eq!(r.collection_mint, key(21));
    assert_eq!(r.collection_metadata, key(22));
    assert_eq!(r.edition_account, key(23));
    assert_eq!(r.bubblegum_signer, key(15));
    assert_eq!(r.log_wrapper, key(16));
    assert_eq!(r.compression_program, key(17));
    assert_eq!(r.token_metadata_program, key(19));
    assert_eq!(r.system_program, key(20));
    assert_eq!(r.signer_seeds, vec![b"AUTH".to_vec(), vec![255u8]]);
    assert_eq!(r.metadata.name, "My Collection");
    assert_eq!(r.metadata.symbol, "MYC");
    assert_eq!(r.metadata.uri, "https://example.org/collection.json");
}

#[test]
fn metadata_has_exactly_one_verified_creator_with_full_share() {
    let data = MetadataData {
        name: String::from("My Collection"),
        symbol: String::from("MYC"),
        uri: String::from("https://example.org/collection.json"),
    };
    let m = build_metadata_args(&data, key(21), key(12));
    assert_eq!(m.creators.len(), 1);
    assert_eq!(m.creators[0].address, key(12));
    assert!(m.creators[0].verified);
    assert_eq!(m.creators[0].share, 100);
}

#[test]
fn metadata_copies_collection_fields_byte_for_byte() {
    let data = MetadataData {
        name: String::from("Padded Name\u{0}\u{0}\u{0}"),
        symbol: String::from("PAD\u{0}"),
        uri: String::from("ipfs://QmExample\u{0}\u{0}"),
    };
    let m = build_metadata_args(&data, key(21), key(12));
    assert_eq!(m.name.as_bytes(), data.name.as_bytes());
    assert_eq!(m.symbol.as_bytes(), data.symbol.as_bytes());
    assert_eq!(m.uri.as_bytes(), data.uri.as_bytes());
}

#[test]
fn metadata_fixed_policy_values() {
    let data = MetadataData {
        name: String::from("N"),
        symbol: String::from("S"),
        uri: String::from("U"),
    };
    let m = build_metadata_args(&data, key(21), key(12));
    assert_eq!(m.seller_fee_basis_points, 0);
    assert!(m.primary_sale_happened);
    assert!(m.is_mutable);
    assert_eq!(m.edition_nonce, None);
    assert_eq!(m.token_standard, Some(TokenStandard::NonFungible));
    assert_eq!(
        m.collection,
        Some(Collection { verified: false, key: key(21) })
    );
    assert_eq!(m.uses, None);
    assert_eq!(m.token_program_version, TokenProgramVersion::Original);
}
