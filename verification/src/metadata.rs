//! The metadata record minted into a tree.
//!
//! A mint call copies the collection's name, symbol and uri verbatim,
//! attaches the collection reference unverified, and sets the derived
//! authority as the sole, verified creator with the full share. The record
//! is transient: it is assembled here and handed to the external mint
//! call, never stored.

use vstd::prelude::*;

use crate::keys::Pubkey;

verus! {

/// The readable fields of a collection's on-chain metadata record.
#[derive(Clone, PartialEq, Eq, Debug)]
pub struct MetadataData {
    pub name: String,
    pub symbol: String,
    pub uri: String,
}

/// A collection metadata account: its address and the record it holds.
#[derive(Clone, PartialEq, Eq, Debug)]
pub struct MetadataAccount {
    pub key: Pubkey,
    pub data: MetadataData,
}

/// A creator entry of a metadata record.
#[derive(Clone, Copy, PartialEq, Eq, Debug)]
pub struct Creator {
    pub address: Pubkey,
    pub verified: bool,
    /// The creator's percentage share of royalties.
    pub share: u8,
}

/// A reference from a minted leaf to its collection.
#[derive(Clone, Copy, PartialEq, Eq, Debug)]
pub struct Collection {
    pub verified: bool,
    pub key: Pubkey,
}

/// The token standard of a minted leaf.
#[derive(Clone, Copy, PartialEq, Eq, Debug)]
pub enum TokenStandard {
    NonFungible,
    FungibleAsset,
    Fungible,
    NonFungibleEdition,
}

/// How a use-limited token may be used.
#[derive(Clone, Copy, PartialEq, Eq, Debug)]
pub enum UseMethod {
    Burn,
    Multiple,
    Single,
}

/// A use-limitation record of a metadata record.
#[derive(Clone, Copy, PartialEq, Eq, Debug)]
pub struct Uses {
    pub use_method: UseMethod,
    pub remaining: u64,
    pub total: u64,
}

/// The token program revision a leaf belongs to.
#[derive(Clone, Copy, PartialEq, Eq, Debug)]
pub enum TokenProgramVersion {
    Original,
    Token2022,
}

/// The metadata payload handed to the external mint call.
#[derive(Clone, PartialEq, Eq, Debug)]
pub struct MetadataArgs {
    pub name: String,
    pub symbol: String,
    pub uri: String,
    /// Royalty basis points for secondary sales.
    pub seller_fee_basis_points: u16,
    pub primary_sale_happened: bool,
    pub is_mutable: bool,
    pub edition_nonce: Option<u8>,
    pub token_standard: Option<TokenStandard>,
    pub collection: Option<Collection>,
    pub uses: Option<Uses>,
    pub token_program_version: TokenProgramVersion,
    pub creators: Vec<Creator>,
}

/// The metadata a mint call constructs: name, symbol and uri copied from
/// the collection record; the collection reference unverified; the
/// derived authority as sole verified creator with the full share; fixed
/// policy values everywhere else.
pub open spec fn is_mint_metadata(
    m: MetadataArgs,
    collection_data: MetadataData,
    collection_mint: Pubkey,
    authority: Pubkey,
) -> bool {
    &&& m.name == collection_data.name
    &&& m.symbol == collection_data.symbol
    &&& m.uri == collection_data.uri
    &&& m.seller_fee_basis_points == 0
    &&& m.primary_sale_happened
    &&& m.is_mutable
    &&& m.edition_nonce is None
    &&& m.token_standard == Some(TokenStandard::NonFungible)
    &&& m.collection == Some(Collection { verified: false, key: collection_mint })
    &&& m.uses is None
    &&& m.token_program_version is Original
    &&& m.creators@ == seq![Creator { address: authority, verified: true, share: 100u8 }]
}

/// Builds the metadata record for a mint into the given collection,
/// signed by the given derived authority.
pub fn build_metadata_args(
    collection_data: &MetadataData,
    collection_mint: Pubkey,
    authority: Pubkey,
) -> (r: MetadataArgs)
    ensures
        is_mint_metadata(r, *collection_data, collection_mint, authority),
{
    let mut creators: Vec<Creator> = Vec::new();
    creators.push(Creator { address: authority, verified: true, share: 100 });
    proof {
        assert(creators@ =~= seq![Creator { address: authority, verified: true, share: 100u8 }]);
    }
    MetadataArgs {
        name: collection_data.name.clone(),
        symbol: collection_data.symbol.clone(),
        uri: collection_data.uri.clone(),
        seller_fee_basis_points: 0,
        primary_sale_happened: true,
        is_mutable: true,
        edition_nonce: None,
        token_standard: Some(TokenStandard::NonFungible),
        collection: Some(Collection { verified: false, key: collection_mint }),
        uses: None,
        token_program_version: TokenProgramVersion::Original,
        creators,
    }
}

} // verus!
