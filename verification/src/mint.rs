//! Collectible minting orchestrator.
//!
//! Turning a capsule into a uniquely-owned collectible takes two ordered
//! calls against external subsystems: first one indivisible unit is issued
//! by the fungible-unit minter, then descriptive metadata is registered for
//! that unit. Neither subsystem runs here; the orchestrator decides. It
//! enforces the authority precondition before anything else, fixes every
//! parameter both steps must be given (the same unit in both), and
//! classifies the two step results so a partial failure stays
//! distinguishable from a total one — there is no rollback of step one.

use vstd::prelude::*;
use crate::capsule::{CapsuleMetadata, CustomError, Pubkey};

verus! {

/// Name for the registry address the metadata subsystem derives for a unit:
/// a pure function of the unit's identity and a fixed namespace tag.
pub uninterp spec fn metadata_address_of(mint: Seq<u8>) -> Seq<u8>;

/// Relies on `mpl_token_metadata::accounts::Metadata::find_pda`: the derived
/// program address of a unit's metadata entry depends on the unit's identity
/// alone (the seeds are a fixed tag, the registry's program id, and the
/// mint key).
#[verifier::external_body]
fn derive_metadata_address(mint: &Pubkey) -> (r: Pubkey)
    ensures
        r@ == metadata_address_of(mint@),
{
    let (address, _bump) = mpl_token_metadata::accounts::Metadata::find_pda(&mint.0.into());
    Pubkey(address.to_bytes())
}

/// The key an optional authority holds, as plain bytes.
pub open spec fn opt_key(o: Option<Pubkey>) -> Option<Seq<u8>> {
    match o {
        Some(k) => Some(k@),
        None => None,
    }
}

/// What the fungible-unit minter is to perform: issue exactly one
/// indivisible unit of `mint` under `authority`.
pub struct UnitMintParams {
    pub mint: Pubkey,
    pub authority: Pubkey,
    pub amount: u64,
}

/// What the metadata registry is to record for the freshly minted unit.
pub struct MetadataParams {
    pub metadata_address: Pubkey,
    pub mint: Pubkey,
    pub update_authority: Pubkey,
    pub name: String,
    pub symbol: String,
    pub uri: String,
    pub creator: Pubkey,
    pub creator_share: u8,
    pub creator_verified: bool,
    pub seller_fee_basis_points: u16,
    pub decimals: u8,
    pub is_mutable: bool,
    pub primary_sale_happened: bool,
    pub non_fungible: bool,
    pub zero_print_supply: bool,
}

/// Both ordered steps of one mint, referencing the same unit.
pub struct MintPlan {
    pub unit: UnitMintParams,
    pub metadata: MetadataParams,
}

/// The authority precondition: the invoker is the record's author and holds
/// the current minting authority over the unit mint.
pub open spec fn mint_authorized(
    author: Seq<u8>,
    invoker: Seq<u8>,
    mint_authority: Option<Seq<u8>>,
) -> bool {
    invoker == author && mint_authority == Some(invoker)
}

/// Everything a well-formed plan fixes: one unit of `mint` under the
/// author's authority, and a metadata entry at the derived registry address
/// naming the author as sole creator at a 100% share, non-fungible, with
/// zero print supply, no seller fee, no prior sale, and mutable.
pub open spec fn plan_matches(
    plan: MintPlan,
    author: Seq<u8>,
    mint: Seq<u8>,
    name: Seq<char>,
    symbol: Seq<char>,
    uri: Seq<char>,
) -> bool {
    &&& plan.unit.mint@ == mint
    &&& plan.unit.authority@ == author
    &&& plan.unit.amount == 1
    &&& plan.metadata.metadata_address@ == metadata_address_of(mint)
    &&& plan.metadata.mint@ == mint
    &&& plan.metadata.update_authority@ == author
    &&& plan.metadata.name@ == name
    &&& plan.metadata.symbol@ == symbol
    &&& plan.metadata.uri@ == uri
    &&& plan.metadata.creator@ == author
    &&& plan.metadata.creator_share == 100
    &&& plan.metadata.creator_verified
    &&& plan.metadata.seller_fee_basis_points == 0
    &&& plan.metadata.decimals == 0
    &&& plan.metadata.is_mutable
    &&& !plan.metadata.primary_sale_happened
    &&& plan.metadata.non_fungible
    &&& plan.metadata.zero_print_supply
}

/// Decides one mint request. An invoker that is not the record's author
/// holding the mint authority is rejected with `InvalidMintAuthority`
/// before anything else is computed, so no external step is ever reached
/// for it. An authorized invoker receives the full two-step plan, with
/// every parameter of both steps pinned down and both steps referencing
/// the same unit.
pub fn mint_nft(
    record: &CapsuleMetadata,
    invoker: &Pubkey,
    mint_authority: &Option<Pubkey>,
    mint: &Pubkey,
    nft_name: String,
    nft_symbol: String,
    nft_uri: String,
) -> (r: Result<MintPlan, CustomError>)
    ensures
        r is Ok <==> mint_authorized(record@.author, invoker@, opt_key(*mint_authority)),
        (match r {
            Ok(plan) => plan_matches(
                plan,
                record@.author,
                mint@,
                nft_name@,
                nft_symbol@,
                nft_uri@,
            ),
            Err(e) => e == CustomError::InvalidMintAuthority,
        }),
{
    let authorized: bool = invoker.eq_key(&record.author) && (match mint_authority {
        Some(current) => current.eq_key(invoker),
        None => false,
    });
    if !authorized {
        return Err(CustomError::InvalidMintAuthority);
    }
    let metadata_address = derive_metadata_address(mint);
    Ok(
        MintPlan {
            unit: UnitMintParams { mint: *mint, authority: record.author, amount: 1 },
            metadata: MetadataParams {
                metadata_address,
                mint: *mint,
                update_authority: record.author,
                name: nft_name,
                symbol: nft_symbol,
                uri: nft_uri,
                creator: record.author,
                creator_share: 100,
                creator_verified: true,
                seller_fee_basis_points: 0,
                decimals: 0,
                is_mutable: true,
                primary_sale_happened: false,
                non_fungible: true,
                zero_print_supply: true,
            },
        },
    )
}

/// The tagged outcome of the two-step sequence, so a caller can tell a
/// partial failure (unit minted, metadata missing) from a total one.
#[derive(Clone, Copy, Debug, PartialEq, Eq, Structural)]
pub enum MintOutcome {
    /// Step one failed; no unit was issued and step two was never attempted.
    MintFailed,
    /// The unit was issued but its metadata registration failed; there is
    /// no rollback of step one, so this state must be surfaced.
    MintSucceededMetadataFailed,
    /// Both steps completed against the same unit.
    BothSucceeded,
}

/// Classifies the reported results of the two steps: step two is attempted
/// exactly when step one succeeded, so its result is present exactly then.
pub fn classify_mint(unit_minted: bool, metadata_registered: Option<bool>) -> (r: MintOutcome)
    requires
        unit_minted <==> metadata_registered is Some,
    ensures
        r == MintOutcome::MintFailed <==> !unit_minted,
        r == MintOutcome::BothSucceeded <==> metadata_registered == Some(true),
        r == MintOutcome::MintSucceededMetadataFailed <==> metadata_registered == Some(false),
{
    match metadata_registered {
        None => MintOutcome::MintFailed,
        Some(true) => MintOutcome::BothSucceeded,
        Some(false) => MintOutcome::MintSucceededMetadataFailed,
    }
}

} // verus!
