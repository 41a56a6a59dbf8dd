use nft_tickets::errors::NftError;
use nft_tickets::ident::{derive_authority, DomainLabel, Ident};
use nft_tickets::ledger::Ledger;
use nft_tickets::records::CollectionRef;

fn md(mint: u64) -> Ident {
    Ident::Derived(DomainLabel::Metadata, mint)
}

fn ed(mint: u64) -> Ident {
    Ident::Derived(DomainLabel::Edition, mint)
}

fn treasury(c: u64) -> Ident {
    Ident::Derived(DomainLabel::Treasury, c)
}

fn mint_auth(m: u64) -> Ident {
    Ident::Derived(DomainLabel::MintAuthority, m)
}

/// An event founded as collection 10 (price 40, owner 2), with payer 1
/// holding 100.
fn event_ledger() -> Ledger {
    let mut l = Ledger::new();
    l.fund(1, 100);
    let r = l.mint_nft_event(
        1,
        10,
        2,
        md(10),
        ed(10),
        "Event".to_string(),
        "EVT".to_string(),
        "uri://event".to_string(),
        500,
        true,
        40,
        1_700_000_000,
        255,
    );
    assert_eq!(r, Ok(()));
    l
}

fn buy_ticket_11(l: &mut Ledger) {
    let r = l.mint_nft_ticket(
        1,
        11,
        2,
        10,
        md(11),
        ed(11),
        "Ticket".to_string(),
        "TIX".to_string(),
        "uri://ticket".to_string(),
        500,
        true,
    );
    assert_eq!(r, Ok(()));
}

#[test]
fn issued_ticket_is_verified_member() {
    let mut l = event_ledger();
    buy_ticket_11(&mut l);
    let rec = l.metadata.get(&11).unwrap();
    assert_eq!(rec.collection, Some(CollectionRef { key: 10, verified: true }));
    assert_eq!(l.metadata.get(&10).unwrap().collection_details, Some(1));
    let uses = rec.uses.unwrap();
    assert_eq!(uses.remaining, 1);
    assert_eq!(uses.total, 1);
}

#[test]
fn payment_moves_exactly_the_price() {
    let mut l = event_ledger();
    buy_ticket_11(&mut l);
    assert_eq!(*l.balances.get(&1).unwrap(), 60);
    assert_eq!(l.treasuries.get(&10).unwrap().lamports, 40);
    assert_eq!(l.treasuries.get(&10).unwrap().record.price, 40);
}

#[test]
fn insufficient_balance_aborts_whole_issuance() {
    let mut l = event_ledger();
    l.fund(3, 39);
    let r = l.mint_nft_ticket(
        3,
        11,
        3,
        10,
        md(11),
        ed(11),
        "Ticket".to_string(),
        "TIX".to_string(),
        "uri://ticket".to_string(),
        500,
        true,
    );
    assert_eq!(r, Err(NftError::InsufficientFunds));
    assert_eq!(*l.balances.get(&3).unwrap(), 39);
    assert!(l.mints.get(&11).is_none());
    assert!(l.metadata.get(&11).is_none());
    assert_eq!(l.treasuries.get(&10).unwrap().lamports, 0);
    assert_eq!(l.metadata.get(&10).unwrap().collection_details, Some(0));
}

#[test]
fn treasury_created_once() {
    let mut l = event_ledger();
    let r = l.mint_nft_event(
        1,
        10,
        2,
        md(10),
        ed(10),
        "Again".to_string(),
        "AGN".to_string(),
        "uri://again".to_string(),
        0,
        true,
        99,
        0,
        255,
    );
    assert_eq!(r, Err(NftError::AlreadyInitialized));
    let r2 = l.collection_init(
        1,
        10,
        md(10),
        "Again".to_string(),
        "AGN".to_string(),
        "uri://again".to_string(),
        0,
        99,
        0,
        255,
    );
    assert_eq!(r2, Err(NftError::AlreadyInitialized));
    assert_eq!(l.treasuries.get(&10).unwrap().record.price, 40);
}

#[test]
fn price_invariant_after_later_operations() {
    let mut l = event_ledger();
    buy_ticket_11(&mut l);
    l.ticket_usage(11, 11, 2).unwrap();
    l.burn(11, 11, treasury(10)).unwrap();
    let rec = l.treasuries.get(&10).unwrap().record;
    assert_eq!(rec.price, 40);
    assert_eq!(rec.event_ts, 1_700_000_000);
    assert_eq!(rec.collection_mint, 10);
}

#[test]
fn redemption_boundary() {
    let mut l = event_ledger();
    buy_ticket_11(&mut l);
    assert_eq!(l.ticket_usage(11, 11, 2), Ok(()));
    assert_eq!(l.metadata.get(&11).unwrap().uses.unwrap().remaining, 0);
    assert_eq!(l.ticket_usage(11, 11, 2), Err(NftError::NoRemainingUses));
    assert_eq!(l.metadata.get(&11).unwrap().uses.unwrap().remaining, 0);
    assert_eq!(l.metadata.get(&11).unwrap().uses.unwrap().total, 1);
}

#[test]
fn only_the_holder_redeems() {
    let mut l = event_ledger();
    buy_ticket_11(&mut l);
    assert_eq!(l.ticket_usage(11, 11, 9), Err(NftError::AuthorityMismatch));
    assert_eq!(l.metadata.get(&11).unwrap().uses.unwrap().remaining, 1);
}

#[test]
fn user_key_cannot_burn() {
    let mut l = event_ledger();
    buy_ticket_11(&mut l);
    let r = l.burn(11, 11, Ident::User(2));
    assert_eq!(r, Err(NftError::AuthorityMismatch));
    assert!(l.metadata.get(&11).is_some());
    assert!(l.mints.get(&11).is_some());
}

#[test]
fn user_key_cannot_mint() {
    let mut l = event_ledger();
    let r = l.mint_one(10, 2, Ident::User(2));
    assert_eq!(r, Err(NftError::AuthorityMismatch));
    assert_eq!(l.mints.get(&10).unwrap().supply, 1);
}

#[test]
fn burn_retires_ticket_and_collection_count() {
    let mut l = event_ledger();
    buy_ticket_11(&mut l);
    assert_eq!(l.burn(11, 11, treasury(10)), Ok(()));
    assert!(l.metadata.get(&11).is_none());
    assert!(l.mints.get(&11).is_none());
    assert_eq!(l.metadata.get(&10).unwrap().collection_details, Some(0));
    assert_eq!(l.ticket_usage(11, 11, 2), Err(NftError::InvalidMetadata));
    assert_eq!(l.burn(11, 11, treasury(10)), Err(NftError::AccountNotFound));
}

#[test]
fn cross_event_authority_is_refused() {
    let mut l = event_ledger();
    l.mint_nft_event(
        1,
        20,
        2,
        md(20),
        ed(20),
        "Other".to_string(),
        "OTH".to_string(),
        "uri://other".to_string(),
        0,
        true,
        5,
        0,
        255,
    )
    .unwrap();
    // A ticket of collection 20, built on the split path, not yet verified.
    l.init_mint(30).unwrap();
    l.ticket_init(
        1,
        30,
        20,
        md(30),
        "Split".to_string(),
        "SPL".to_string(),
        "uri://split".to_string(),
        0,
    )
    .unwrap();
    // Collection 10's treasury authority must not verify items into 20.
    let r = l.verify_collection(30, 20, treasury(10), mint_auth(30));
    assert_eq!(r, Err(NftError::AuthorityMismatch));
    assert!(!l.metadata.get(&30).unwrap().collection.unwrap().verified);
    // The right authority does.
    let r2 = l.verify_collection(30, 20, treasury(20), mint_auth(30));
    assert_eq!(r2, Ok(()));
    assert!(l.metadata.get(&30).unwrap().collection.unwrap().verified);
    assert_eq!(l.metadata.get(&20).unwrap().collection_details, Some(1));
}

#[test]
fn distinct_collections_distinct_authorities() {
    assert_ne!(derive_authority(DomainLabel::Treasury, 10), derive_authority(DomainLabel::Treasury, 20));
    assert_ne!(derive_authority(DomainLabel::Treasury, 10), Ident::User(10));
}

#[test]
fn split_path_full_flow() {
    let mut l = Ledger::new();
    l.fund(1, 10);
    l.init_mint(40).unwrap();
    assert_eq!(l.init_mint(40), Err(NftError::AlreadyInitialized));
    // Found the event on the existing mint.
    let r = l.collection_init(
        1,
        40,
        md(40),
        "Event".to_string(),
        "EVT".to_string(),
        "uri://event".to_string(),
        100,
        7,
        1,
        254,
    );
    assert_eq!(r, Ok(()));
    assert_eq!(l.metadata.get(&40).unwrap().collection_details, Some(0));
    // The ticket mint and its record.
    l.init_mint(41).unwrap();
    l.ticket_init(
        1,
        41,
        40,
        md(41),
        "Ticket".to_string(),
        "TIX".to_string(),
        "uri://ticket".to_string(),
        100,
    )
    .unwrap();
    let rec = l.metadata.get(&41).unwrap();
    assert_eq!(rec.collection, Some(CollectionRef { key: 40, verified: false }));
    assert_eq!(rec.uses.unwrap().remaining, 1);
    // Mint the unit, pay, verify.
    l.mint_nft(41, 1).unwrap();
    assert_eq!(l.mints.get(&41).unwrap().supply, 1);
    assert_eq!(l.ticket_payment(1, 40), Ok(()));
    assert_eq!(*l.balances.get(&1).unwrap(), 3);
    assert_eq!(l.treasuries.get(&40).unwrap().lamports, 7);
    let rv = l.verify_collection(41, 40, mint_auth(40), mint_auth(41));
    assert_eq!(rv, Ok(()));
    assert!(l.metadata.get(&41).unwrap().collection.unwrap().verified);
    assert_eq!(l.metadata.get(&40).unwrap().collection_details, Some(1));
    // Verifying twice is refused.
    assert_eq!(
        l.verify_collection(41, 40, mint_auth(40), mint_auth(41)),
        Err(NftError::AlreadyVerified)
    );
    // Redeem and burn under the per-mint authority.
    assert_eq!(l.ticket_usage(41, 41, 1), Ok(()));
    assert_eq!(l.burn(41, 41, mint_auth(41)), Ok(()));
    assert_eq!(l.metadata.get(&40).unwrap().collection_details, Some(0));
}

#[test]
fn mint_supply_accumulates() {
    let mut l = Ledger::new();
    l.init_mint(50).unwrap();
    assert_eq!(l.mints.get(&50).unwrap().supply, 0);
    l.mint_nft(50, 7).unwrap();
    l.mint_nft(50, 7).unwrap();
    let mi = l.mints.get(&50).unwrap();
    assert_eq!(mi.supply, 2);
    assert_eq!(mi.holding.unwrap().owner, 7);
    assert_eq!(mi.holding.unwrap().amount, 2);
    // Minting to a second holder is outside the single-holding model.
    assert_eq!(l.mint_nft(50, 8), Err(NftError::Failed));
}

#[test]
fn mint_one_event_uses_treasury_authority() {
    let mut l = Ledger::new();
    l.fund(1, 0);
    l.mint_nft_event(
        1,
        60,
        2,
        md(60),
        ed(60),
        "E".to_string(),
        "E".to_string(),
        "uri://e".to_string(),
        0,
        true,
        0,
        0,
        255,
    )
    .unwrap();
    assert_eq!(l.mint_one_event(60, 2), Ok(()));
    assert_eq!(l.mints.get(&60).unwrap().supply, 2);
}

#[test]
fn metadata_creation_demands_mint_authority() {
    let mut l = Ledger::new();
    l.init_mint(70).unwrap();
    let r = l.create_metadata_event(
        70,
        treasury(70),
        md(70),
        ed(70),
        "E".to_string(),
        "E".to_string(),
        "uri://e".to_string(),
        0,
        true,
    );
    assert_eq!(r, Err(NftError::AuthorityMismatch));
    let r2 = l.create_metadata_event(
        70,
        mint_auth(70),
        md(70),
        ed(70),
        "E".to_string(),
        "E".to_string(),
        "uri://e".to_string(),
        0,
        true,
    );
    assert_eq!(r2, Ok(()));
    assert_eq!(l.metadata.get(&70).unwrap().collection_details, Some(0));
    let r3 = l.create_metadata_ticket(
        70,
        10,
        mint_auth(70),
        md(70),
        ed(70),
        "T".to_string(),
        "T".to_string(),
        "uri://t".to_string(),
        0,
        true,
    );
    assert_eq!(r3, Err(NftError::AlreadyInitialized));
}

#[test]
fn address_mismatches_are_fatal() {
    let mut l = event_ledger();
    let r = l.mint_nft_ticket(
        1,
        11,
        2,
        10,
        md(12),
        ed(11),
        "T".to_string(),
        "T".to_string(),
        "uri://t".to_string(),
        0,
        true,
    );
    assert_eq!(r, Err(NftError::BadMetadataPda));
    let r2 = l.mint_nft_ticket(
        1,
        11,
        2,
        10,
        md(11),
        ed(12),
        "T".to_string(),
        "T".to_string(),
        "uri://t".to_string(),
        0,
        true,
    );
    assert_eq!(r2, Err(NftError::BadEditionPda));
    assert!(l.mints.get(&11).is_none());
    let r3 = l.collection_init(
        1,
        12,
        md(13),
        "E".to_string(),
        "E".to_string(),
        "uri://e".to_string(),
        0,
        0,
        0,
        255,
    );
    assert_eq!(r3, Err(NftError::MetadatapdaMismatch));
    l.init_mint(12).unwrap();
    let r4 = l.ticket_init(
        1,
        12,
        10,
        md(13),
        "T".to_string(),
        "T".to_string(),
        "uri://t".to_string(),
        0,
    );
    assert_eq!(r4, Err(NftError::MetadatapdaMismatch));
}

#[test]
fn missing_accounts_are_refused() {
    let mut l = Ledger::new();
    l.fund(1, 100);
    assert_eq!(l.ticket_payment(1, 99), Err(NftError::AccountNotFound));
    assert_eq!(l.buy_ticket(2, 99), Err(NftError::AccountNotFound));
    assert_eq!(l.mint_nft(99, 1), Err(NftError::AccountNotFound));
    assert_eq!(l.ticket_usage(99, 99, 1), Err(NftError::InvalidMetadata));
    assert_eq!(l.burn(99, 99, Ident::User(1)), Err(NftError::AccountNotFound));
}

#[test]
fn usage_demands_a_counter_and_the_right_mint() {
    let mut l = event_ledger();
    buy_ticket_11(&mut l);
    // The collection root has no use counter.
    assert_eq!(l.ticket_usage(10, 10, 2), Err(NftError::NoUsesConfigured));
    // A record presented against another mint is refused.
    assert_eq!(l.ticket_usage(11, 10, 2), Err(NftError::MetadataMintMismatch));
}

#[test]
fn verify_demands_the_referenced_collection() {
    let mut l = event_ledger();
    l.mint_nft_event(
        1,
        20,
        2,
        md(20),
        ed(20),
        "O".to_string(),
        "O".to_string(),
        "uri://o".to_string(),
        0,
        true,
        0,
        0,
        255,
    )
    .unwrap();
    l.init_mint(30).unwrap();
    l.ticket_init(
        1,
        30,
        20,
        md(30),
        "S".to_string(),
        "S".to_string(),
        "uri://s".to_string(),
        0,
    )
    .unwrap();
    // The item references 20, not 10.
    let r = l.verify_collection(30, 10, treasury(10), mint_auth(30));
    assert_eq!(r, Err(NftError::CollectionMismatch));
}

#[test]
fn payment_without_balance_account_is_refused() {
    let mut l = event_ledger();
    assert_eq!(l.ticket_payment(42, 10), Err(NftError::AccountNotFound));
}

#[test]
fn treasury_balance_at_the_limit_refuses_payment() {
    let mut l = Ledger::new();
    l.fund(1, u64::MAX);
    l.mint_nft_event(
        1,
        80,
        2,
        md(80),
        ed(80),
        "Max".to_string(),
        "MAX".to_string(),
        "uri://max".to_string(),
        0,
        true,
        u64::MAX,
        0,
        255,
    )
    .unwrap();
    assert_eq!(l.ticket_payment(1, 80), Ok(()));
    assert_eq!(l.treasuries.get(&80).unwrap().lamports, u64::MAX);
    l.fund(1, u64::MAX);
    // A further payment would push the escrow past the ledger's limit.
    assert_eq!(l.ticket_payment(1, 80), Err(NftError::Failed));
    assert_eq!(*l.balances.get(&1).unwrap(), u64::MAX);
    assert_eq!(l.treasuries.get(&80).unwrap().lamports, u64::MAX);
}
