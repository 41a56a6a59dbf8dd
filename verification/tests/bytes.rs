use anchor_lang::solana_program::pubkey::Pubkey;
use mpl_token_metadata::accounts::Metadata;
use mpl_token_metadata::types::{Collection, Key, UseMethod, Uses};
use nft_tickets::errors::NftError;
use nft_tickets::metadata_bytes::{
    confirm_remaining, parse_metadata, ticket_usage_precheck, ParsedCollection, ParsedUses,
};

fn ticket_metadata(mint: Pubkey, collection: Pubkey, remaining: u64, uses: bool) -> Metadata {
    Metadata {
        key: Key::MetadataV1,
        update_authority: Pubkey::new_from_array([1u8; 32]),
        mint,
        name: "Ticket".to_string(),
        symbol: "TIX".to_string(),
        uri: "uri://ticket".to_string(),
        seller_fee_basis_points: 500,
        creators: None,
        primary_sale_happened: false,
        is_mutable: true,
        edition_nonce: Some(255),
        token_standard: None,
        collection: Some(Collection { verified: false, key: collection }),
        uses: if uses {
            Some(Uses { use_method: UseMethod::Single, remaining, total: 1 })
        } else {
            None
        },
        collection_details: None,
        programmable_config: None,
    }
}

#[test]
fn parse_reads_the_fields_the_logic_needs() {
    let mint = Pubkey::new_from_array([2u8; 32]);
    let coll = Pubkey::new_from_array([3u8; 32]);
    let bytes = borsh::to_vec(&ticket_metadata(mint, coll, 1, true)).unwrap();
    let parsed = parse_metadata(&bytes).unwrap();
    assert_eq!(parsed.mint, mint.to_bytes());
    assert_eq!(
        parsed.collection,
        Some(ParsedCollection { key: coll.to_bytes(), verified: false })
    );
    assert_eq!(parsed.uses, Some(ParsedUses { remaining: 1, total: 1 }));
}

#[test]
fn precheck_accepts_a_usable_ticket() {
    let mint = Pubkey::new_from_array([2u8; 32]);
    let coll = Pubkey::new_from_array([3u8; 32]);
    let bytes = borsh::to_vec(&ticket_metadata(mint, coll, 1, true)).unwrap();
    assert_eq!(ticket_usage_precheck(&bytes, &mint.to_bytes()), Ok(1));
}

#[test]
fn precheck_rejects_a_foreign_mint() {
    let mint = Pubkey::new_from_array([2u8; 32]);
    let coll = Pubkey::new_from_array([3u8; 32]);
    let bytes = borsh::to_vec(&ticket_metadata(mint, coll, 1, true)).unwrap();
    let other = [4u8; 32];
    assert_eq!(
        ticket_usage_precheck(&bytes, &other),
        Err(NftError::MetadataMintMismatch)
    );
}

#[test]
fn precheck_demands_a_use_counter() {
    let mint = Pubkey::new_from_array([2u8; 32]);
    let coll = Pubkey::new_from_array([3u8; 32]);
    let bytes = borsh::to_vec(&ticket_metadata(mint, coll, 0, false)).unwrap();
    assert_eq!(
        ticket_usage_precheck(&bytes, &mint.to_bytes()),
        Err(NftError::NoUsesConfigured)
    );
}

#[test]
fn precheck_rejects_an_exhausted_ticket() {
    let mint = Pubkey::new_from_array([2u8; 32]);
    let coll = Pubkey::new_from_array([3u8; 32]);
    let bytes = borsh::to_vec(&ticket_metadata(mint, coll, 0, true)).unwrap();
    assert_eq!(
        ticket_usage_precheck(&bytes, &mint.to_bytes()),
        Err(NftError::NoRemainingUses)
    );
}

#[test]
fn malformed_bytes_are_a_recoverable_error() {
    let mint = [2u8; 32];
    assert_eq!(ticket_usage_precheck(&[], &mint), Err(NftError::InvalidMetadata));
    assert_eq!(
        ticket_usage_precheck(&[1, 2, 3], &mint),
        Err(NftError::InvalidMetadata)
    );
    assert!(parse_metadata(&[255u8; 16]).is_none());
    assert_eq!(confirm_remaining(&[9u8; 4]), Err(NftError::InvalidMetadata));
}

#[test]
fn confirm_remaining_reads_the_counter_after_use() {
    let mint = Pubkey::new_from_array([2u8; 32]);
    let coll = Pubkey::new_from_array([3u8; 32]);
    let bytes = borsh::to_vec(&ticket_metadata(mint, coll, 0, true)).unwrap();
    assert_eq!(confirm_remaining(&bytes), Ok(0));
    let bytes_no_uses = borsh::to_vec(&ticket_metadata(mint, coll, 0, false)).unwrap();
    assert_eq!(confirm_remaining(&bytes_no_uses), Err(NftError::NoUsesConfigured));
}
