use memoreal_capsule::capsule::{CapsuleMetadata, CapsuleType, CustomError, Pubkey};
use memoreal_capsule::mint::{classify_mint, mint_nft, MintOutcome};

fn key(tag: u8) -> Pubkey {
    let mut bytes = [0u8; 32];
    bytes[0] = tag;
    Pubkey(bytes)
}

fn record(author: Pubkey) -> CapsuleMetadata {
    CapsuleMetadata {
        author,
        title: String::from("capsule"),
        recipient: String::from("friend"),
        message: String::from("hello"),
        media_url: String::from("ipfs://cid"),
        created_at: 1_600_000_000,
        capsule_type: CapsuleType::General,
        unlock_at: None,
        location: None,
    }
}

#[test]
fn mint_by_non_author_is_rejected() {
    let rec = record(key(1));
    let intruder = key(2);
    let r = mint_nft(
        &rec,
        &intruder,
        &Some(key(2)),
        &key(5),
        String::from("name"),
        String::from("SYM"),
        String::from("uri"),
    );
    assert!(matches!(r, Err(CustomError::InvalidMintAuthority)));
}

#[test]
fn mint_without_holding_the_mint_authority_is_rejected() {
    let rec = record(key(1));
    let author = key(1);
    let r = mint_nft(
        &rec,
        &author,
        &None,
        &key(5),
        String::from("name"),
        String::from("SYM"),
        String::from("uri"),
    );
    assert!(matches!(r, Err(CustomError::InvalidMintAuthority)));
    let r2 = mint_nft(
        &rec,
        &author,
        &Some(key(3)),
        &key(5),
        String::from("name"),
        String::from("SYM"),
        String::from("uri"),
    );
    assert!(matches!(r2, Err(CustomError::InvalidMintAuthority)));
}

#[test]
fn authorized_mint_fixes_every_step_parameter() {
    let author = key(1);
    let rec = record(author);
    let mint = key(5);
    let plan = mint_nft(
        &rec,
        &author,
        &Some(author),
        &mint,
        String::from("Memoreal"),
        String::from("MEMO"),
        String::from("ipfs://meta"),
    )
    .unwrap();
    assert_eq!(plan.unit.mint.0, mint.0);
    assert_eq!(plan.unit.authority.0, author.0);
    assert_eq!(plan.unit.amount, 1);
    assert_eq!(plan.metadata.mint.0, mint.0);
    assert_eq!(plan.metadata.update_authority.0, author.0);
    assert_eq!(plan.metadata.name, "Memoreal");
    assert_eq!(plan.metadata.symbol, "MEMO");
    assert_eq!(plan.metadata.uri, "ipfs://meta");
    assert_eq!(plan.metadata.creator.0, author.0);
    assert_eq!(plan.metadata.creator_share, 100);
    assert!(plan.metadata.creator_verified);
    assert_eq!(plan.metadata.seller_fee_basis_points, 0);
    assert_eq!(plan.metadata.decimals, 0);
    assert!(plan.metadata.is_mutable);
    assert!(!plan.metadata.primary_sale_happened);
    assert!(plan.metadata.non_fungible);
    assert!(plan.metadata.zero_print_supply);
}

#[test]
fn metadata_address_is_the_registry_derived_address() {
    let author = key(1);
    let rec = record(author);
    let mint = key(5);
    let plan = mint_nft(
        &rec,
        &author,
        &Some(author),
        &mint,
        String::from("n"),
        String::from("S"),
        String::from("u"),
    )
    .unwrap();
    let (expected, _bump) = mpl_token_metadata::accounts::Metadata::find_pda(&mint.0.into());
    assert_eq!(plan.metadata.metadata_address.0, expected.to_bytes());
    assert_ne!(plan.metadata.metadata_address.0, mint.0);
}

#[test]
fn both_steps_succeeding_is_classified_as_full_success() {
    assert_eq!(classify_mint(true, Some(true)), MintOutcome::BothSucceeded);
}

#[test]
fn metadata_failure_after_minting_is_surfaced_as_partial() {
    assert_eq!(
        classify_mint(true, Some(false)),
        MintOutcome::MintSucceededMetadataFailed
    );
}

#[test]
fn failed_minting_never_reaches_the_metadata_step() {
    assert_eq!(classify_mint(false, None), MintOutcome::MintFailed);
}
