//! The two entry points: tree creation and minting.
//!
//! Each entry point forwards one call to the external compression library
//! and then either reports the event it owes on success or fails with its
//! one error kind. The forwarded call is assembled here as a request
//! value; the surrounding program performs the call and hands back its
//! outcome as a plain value, so the decision taken on every outcome is
//! verified.

use vstd::prelude::*;

use crate::keys::Pubkey;
use crate::keys::signer_seed;
use crate::keys::signer_seed_spec;
use crate::metadata::MetadataAccount;
use crate::metadata::MetadataArgs;
use crate::metadata::build_metadata_args;
use crate::metadata::is_mint_metadata;

verus! {

/// The accounts a tree-creation call takes.
#[derive(Clone, Copy, PartialEq, Eq, Debug)]
pub struct AnchorCreateTree {
    pub payer: Pubkey,
    /// The derived authority.
    pub pda: Pubkey,
    pub tree_authority: Pubkey,
    pub merkle_tree: Pubkey,
    pub log_wrapper: Pubkey,
    pub system_program: Pubkey,
    pub bubblegum_program: Pubkey,
    pub compression_program: Pubkey,
}

/// The accounts a mint call takes.
#[derive(Clone, PartialEq, Eq, Debug)]
pub struct MintCompressedNft {
    pub payer: Pubkey,
    /// The derived authority.
    pub pda: Pubkey,
    pub tree_authority: Pubkey,
    pub merkle_tree: Pubkey,
    /// The external program's own signing address for collection checks.
    pub bubblegum_signer: Pubkey,
    pub log_wrapper: Pubkey,
    pub compression_program: Pubkey,
    pub bubblegum_program: Pubkey,
    pub token_metadata_program: Pubkey,
    pub system_program: Pubkey,
    pub collection_mint: Pubkey,
    pub collection_metadata: MetadataAccount,
    pub edition_account: Pubkey,
}

/// What the external call returned, collapsed to success or failure: the
/// program preserves no detail of an external failure.
#[derive(Clone, Copy, PartialEq, Eq, Debug)]
pub enum CpiOutcome {
    Succeeded,
    Failed,
}

/// Notification emitted after a successful tree creation.
#[derive(Clone, Copy, PartialEq, Eq, Debug)]
pub struct TreeCreated {
    pub tree_authority: Pubkey,
    pub merkle_tree: Pubkey,
    pub payer: Pubkey,
}

/// Notification emitted after a successful mint.
#[derive(Clone, Copy, PartialEq, Eq, Debug)]
pub struct CompressedNFTMinted {
    pub tree_authority: Pubkey,
    pub leaf_owner: Pubkey,
}

/// The two failure kinds of the program.
#[derive(Clone, Copy, PartialEq, Eq, Debug)]
pub enum ErrorCode {
    CreateTreeCpiFailed,
    MintCompressedNFTFailed,
}

/// The external tree-creation call, fully assembled: the program to
/// invoke, its accounts, the signer seeds, and the forwarded parameters.
#[derive(Clone, PartialEq, Eq, Debug)]
pub struct CreateTreeRequest {
    pub program: Pubkey,
    pub tree_authority: Pubkey,
    pub merkle_tree: Pubkey,
    pub payer: Pubkey,
    pub tree_creator: Pubkey,
    pub log_wrapper: Pubkey,
    pub compression_program: Pubkey,
    pub system_program: Pubkey,
    pub signer_seeds: Vec<Vec<u8>>,
    pub max_depth: u32,
    pub max_buffer_size: u32,
    /// Whether the tree is writable by arbitrary callers.
    pub public: Option<bool>,
}

/// The external mint-into-collection call, fully assembled.
#[derive(Clone, PartialEq, Eq, Debug)]
pub struct MintToCollectionRequest {
    pub program: Pubkey,
    pub tree_authority: Pubkey,
    pub leaf_owner: Pubkey,
    pub leaf_delegate: Pubkey,
    pub merkle_tree: Pubkey,
    pub payer: Pubkey,
    pub tree_delegate: Pubkey,
    pub collection_authority: Pubkey,
    pub collection_authority_record_pda: Pubkey,
    pub collection_mint: Pubkey,
    pub collection_metadata: Pubkey,
    pub edition_account: Pubkey,
    pub bubblegum_signer: Pubkey,
    pub log_wrapper: Pubkey,
    pub compression_program: Pubkey,
    pub token_metadata_program: Pubkey,
    pub system_program: Pubkey,
    pub signer_seeds: Vec<Vec<u8>>,
    pub metadata: MetadataArgs,
}

/// Assembles the external tree-creation call: the supplied accounts are
/// forwarded verbatim, the derived authority is the tree creator and the
/// signer, the capacity parameters are passed through, and the tree is
/// fixed not public.
pub fn create_tree_request(
    accounts: &AnchorCreateTree,
    max_depth: u32,
    max_buffer_size: u32,
    bump: u8,
) -> (r: CreateTreeRequest)
    ensures
        r.program == accounts.bubblegum_program,
        r.tree_authority == accounts.tree_authority,
        r.merkle_tree == accounts.merkle_tree,
        r.payer == accounts.payer,
        r.tree_creator == accounts.pda,
        r.log_wrapper == accounts.log_wrapper,
        r.compression_program == accounts.compression_program,
        r.system_program == accounts.system_program,
        r.signer_seeds.deep_view() == signer_seed_spec(bump),
        r.max_depth == max_depth,
        r.max_buffer_size == max_buffer_size,
        r.public == Some(false),
{
    CreateTreeRequest {
        program: accounts.bubblegum_program,
        tree_authority: accounts.tree_authority,
        merkle_tree: accounts.merkle_tree,
        payer: accounts.payer,
        tree_creator: accounts.pda,
        log_wrapper: accounts.log_wrapper,
        compression_program: accounts.compression_program,
        system_program: accounts.system_program,
        signer_seeds: signer_seed(bump),
        max_depth,
        max_buffer_size,
        public: Some(false),
    }
}

/// Decides a tree-creation call from the external call's outcome: on
/// success, exactly the one notification carrying the supplied tree
/// authority, merkle tree and payer; on failure, the tree-creation error
/// and no notification.
pub fn anchor_create_tree(accounts: &AnchorCreateTree, outcome: CpiOutcome) -> (r: Result<
    TreeCreated,
    ErrorCode,
>)
    ensures
        outcome is Succeeded ==> r == Ok::<TreeCreated, ErrorCode>(
            TreeCreated {
                tree_authority: accounts.tree_authority,
                merkle_tree: accounts.merkle_tree,
                payer: accounts.payer,
            },
        ),
        outcome is Failed ==> r == Err::<TreeCreated, ErrorCode>(ErrorCode::CreateTreeCpiFailed),
{
    match outcome {
        CpiOutcome::Failed => Err(ErrorCode::CreateTreeCpiFailed),
        CpiOutcome::Succeeded => Ok(
            TreeCreated {
                tree_authority: accounts.tree_authority,
                merkle_tree: accounts.merkle_tree,
                payer: accounts.payer,
            },
        ),
    }
}

/// Assembles the external mint-into-collection call: the payer is leaf
/// owner and delegate, the derived authority is tree delegate, collection
/// authority and signer, the external program stands in for the absent
/// collection-authority record, and the metadata is built from the
/// collection's record.
pub fn mint_to_collection_request(accounts: &MintCompressedNft, bump: u8) -> (r:
    MintToCollectionRequest)
    ensures
        r.program == accounts.bubblegum_program,
        r.tree_authority == accounts.tree_authority,
        r.leaf_owner == accounts.payer,
        r.leaf_delegate == accounts.payer,
        r.merkle_tree == accounts.merkle_tree,
        r.payer == accounts.payer,
        r.tree_delegate == accounts.pda,
        r.collection_authority == accounts.pda,
        r.collection_authority_record_pda == accounts.bubblegum_program,
        r.collection_mint == accounts.collection_mint,
        r.collection_metadata == accounts.collection_metadata.key,
        r.edition_account == accounts.edition_account,
        r.bubblegum_signer == accounts.bubblegum_signer,
        r.log_wrapper == accounts.log_wrapper,
        r.compression_program == accounts.compression_program,
        r.token_metadata_program == accounts.token_metadata_program,
        r.system_program == accounts.system_program,
        r.signer_seeds.deep_view() == signer_seed_spec(bump),
        is_mint_metadata(
            r.metadata,
            accounts.collection_metadata.data,
            accounts.collection_mint,
            accounts.pda,
        ),
{
    MintToCollectionRequest {
        program: accounts.bubblegum_program,
        tree_authority: accounts.tree_authority,
        leaf_owner: accounts.payer,
        leaf_delegate: accounts.payer,
        merkle_tree: accounts.merkle_tree,
        payer: accounts.payer,
        tree_delegate: accounts.pda,
        collection_authority: accounts.pda,
        collection_authority_record_pda: accounts.bubblegum_program,
        collection_mint: accounts.collection_mint,
        collection_metadata: accounts.collection_metadata.key,
        edition_account: accounts.edition_account,
        bubblegum_signer: accounts.bubblegum_signer,
        log_wrapper: accounts.log_wrapper,
        compression_program: accounts.compression_program,
        token_metadata_program: accounts.token_metadata_program,
        system_program: accounts.system_program,
        signer_seeds: signer_seed(bump),
        metadata: build_metadata_args(
            &accounts.collection_metadata.data,
            accounts.collection_mint,
            accounts.pda,
        ),
    }
}

/// Decides a mint call from the external call's outcome: on success,
/// exactly the one notification carrying the supplied tree authority and
/// the payer as leaf owner; on failure, the mint error and no
/// notification.
pub fn mint_compressed_nft(accounts: &MintCompressedNft, outcome: CpiOutcome) -> (r: Result<
    CompressedNFTMinted,
    ErrorCode,
>)
    ensures
        outcome is Succeeded ==> r == Ok::<CompressedNFTMinted, ErrorCode>(
            CompressedNFTMinted {
                tree_authority: accounts.tree_authority,
                leaf_owner: accounts.payer,
            },
        ),
        outcome is Failed ==> r == Err::<CompressedNFTMinted, ErrorCode>(
            ErrorCode::MintCompressedNFTFailed,
        ),
{
    match outcome {
        CpiOutcome::Failed => Err(ErrorCode::MintCompressedNFTFailed),
        CpiOutcome::Succeeded => Ok(
            CompressedNFTMinted {
                tree_authority: accounts.tree_authority,
                leaf_owner: accounts.payer,
            },
        ),
    }
}

} // verus!
