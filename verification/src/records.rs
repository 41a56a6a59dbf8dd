use vstd::prelude::*;

use crate::ident::{treasury_authority, Ident};

verus! {

/// The persisted escrow record of one event's collection: created once,
/// immutable afterwards.  The accumulated balance lives beside it in
/// [`TreasuryAccount`], since payment is the only mutation in scope.
#[derive(Clone, Copy, PartialEq, Eq, Structural, Debug)]
pub struct Treasury {
    /// The identity that administers the event: the treasury's own derived
    /// identity, so that no user key ever holds it.
    pub authority: Ident,
    /// The collection this treasury funds; immutable after creation.
    pub collection_mint: u64,
    /// The event's timestamp, set once at creation.
    pub event_ts: u64,
    /// The self-certifying derivation proof value recorded at creation.
    pub bump: u8,
    /// The ticket price, set once at creation.
    pub price: u64,
}

/// A treasury record together with the value it has escrowed.
#[derive(Clone, Copy, PartialEq, Eq, Structural, Debug)]
pub struct TreasuryAccount {
    pub record: Treasury,
    pub lamports: u64,
}

/// The single holding account of a mint: who holds the minted units.
/// Tickets and collection roots are non-divisible and not transferred in
/// scope, so one holding per mint covers every operation here.
#[derive(Clone, Copy, PartialEq, Eq, Structural, Debug)]
pub struct Holding {
    pub owner: u64,
    pub amount: u64,
}

/// A token identity: its minting authority, its supply, and its holding.
#[derive(Clone, Copy, PartialEq, Eq, Structural, Debug)]
pub struct MintInfo {
    /// Only this identity may mint or burn; never a user key for mints
    /// created by the ticketing flows.
    pub authority: Ident,
    pub supply: u64,
    pub holding: Option<Holding>,
}

/// The creator a metadata record credits.  The ticketing flows record at
/// most one creator — the treasury, with the full share — so the record
/// holds the list's only entry.
#[derive(Clone, Copy, PartialEq, Eq, Structural, Debug)]
pub struct Creator {
    pub address: Ident,
    pub verified: bool,
    pub share: u8,
}

/// A reference from an item's metadata to its collection root, with the
/// membership-verification flag.
#[derive(Clone, Copy, PartialEq, Eq, Structural, Debug)]
pub struct CollectionRef {
    pub key: u64,
    pub verified: bool,
}

/// How a ticket's use counter is consumed.
#[derive(Clone, Copy, PartialEq, Eq, Structural, Debug)]
pub enum UseKind {
    Burn,
    Multiple,
    Single,
}

/// A ticket's bounded use counter: `remaining` never exceeds `total` and
/// only ever decreases.
#[derive(Clone, Copy, PartialEq, Eq, Structural, Debug)]
pub struct UsesInfo {
    pub use_method: UseKind,
    pub remaining: u64,
    pub total: u64,
}

/// The metadata record attached to a mint: descriptive fields, the
/// collection reference, the use counter, and for a collection root the
/// recorded collection size.
#[derive(PartialEq, Eq, Debug)]
pub struct MetadataRecord {
    /// The mint this record describes.
    pub mint: u64,
    /// The identity allowed to update the record: the treasury authority
    /// for records created by the ticketing flows.
    pub update_authority: Ident,
    pub name: String,
    pub symbol: String,
    pub uri: String,
    pub seller_fee_basis_points: u16,
    pub creators: Option<Creator>,
    pub primary_sale_happened: bool,
    pub is_mutable: bool,
    /// `Some` on items: the collection root this item references.
    pub collection: Option<CollectionRef>,
    /// `Some` on tickets: the bounded use counter.
    pub uses: Option<UsesInfo>,
    /// `Some` on collection roots: the number of verified members.
    pub collection_details: Option<u64>,
}

impl MetadataRecord {
    /// A record is well formed when its use counter respects its bound.
    pub open spec fn wf(self) -> bool {
        self.uses matches Some(u) ==> u.remaining <= u.total
    }

    /// An exact copy of the record.  (`clone` via derive would say nothing
    /// to the verifier about the copy, so the copy is built by hand.)
    pub fn duplicate(&self) -> (r: MetadataRecord)
        ensures
            r == *self,
    {
        MetadataRecord {
            mint: self.mint,
            update_authority: self.update_authority,
            name: self.name.clone(),
            symbol: self.symbol.clone(),
            uri: self.uri.clone(),
            seller_fee_basis_points: self.seller_fee_basis_points,
            creators: self.creators,
            primary_sale_happened: self.primary_sale_happened,
            is_mutable: self.is_mutable,
            collection: self.collection,
            uses: self.uses,
            collection_details: self.collection_details,
        }
    }
}

/// The treasury record a collection's creation persists.
pub open spec fn fresh_treasury(
    collection_mint: u64,
    event_ts: u64,
    bump: u8,
    price: u64,
) -> Treasury {
    Treasury {
        authority: treasury_authority(collection_mint),
        collection_mint,
        event_ts,
        bump,
        price,
    }
}

} // verus!
