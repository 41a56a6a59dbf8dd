use vstd::prelude::*;

use crate::errors::NftError;
use crate::ident::{edition_address, metadata_address, treasury_authority, DomainLabel, Ident};
use crate::ledger::Ledger;
use crate::records::{
    fresh_treasury, CollectionRef, Creator, Holding, MetadataRecord, MintInfo, Treasury,
    TreasuryAccount, UseKind, UsesInfo,
};

verus! {

broadcast use vstd::std_specs::hash::group_hash_axioms;

/// What a metadata record is created as: the collection's own root, or a
/// member item referencing its root.  Resolving this at the call boundary
/// keeps the branch out of the creation logic.
#[derive(Clone, Copy, PartialEq, Eq, Structural, Debug)]
pub enum IssueRequest {
    /// The event's canonical item: a sized collection root of size zero.
    IssueRoot,
    /// A per-attendee item: references its root, still unverified, and
    /// carries the single-use counter.
    IssueMember { collection_ref: u64 },
}

/// The metadata record a creation writes: descriptive fields as given,
/// nothing sold yet, and — by the request — either a size-zero root or an
/// unverified member with a fresh single-use counter.
pub open spec fn fresh_metadata(
    mint: u64,
    authority: Ident,
    name: String,
    symbol: String,
    uri: String,
    seller_fee_basis_points: u16,
    is_mutable: bool,
    credit_creator: bool,
    request: IssueRequest,
) -> MetadataRecord {
    MetadataRecord {
        mint,
        update_authority: authority,
        name,
        symbol,
        uri,
        seller_fee_basis_points,
        creators: if credit_creator {
            Some(Creator { address: authority, verified: false, share: 100 })
        } else {
            None
        },
        primary_sale_happened: false,
        is_mutable,
        collection: match request {
            IssueRequest::IssueRoot => None,
            IssueRequest::IssueMember { collection_ref } => Some(
                CollectionRef { key: collection_ref, verified: false },
            ),
        },
        uses: match request {
            IssueRequest::IssueRoot => None,
            IssueRequest::IssueMember { .. } => Some(
                UsesInfo { use_method: UseKind::Single, remaining: 1, total: 1 },
            ),
        },
        collection_details: match request {
            IssueRequest::IssueRoot => Some(0u64),
            IssueRequest::IssueMember { .. } => None,
        },
    }
}

/// The record of a ticket the atomic purchase issues: as a fresh member,
/// but already a verified member of its collection.
pub open spec fn issued_ticket_record(
    mint: u64,
    collection_mint: u64,
    name: String,
    symbol: String,
    uri: String,
    seller_fee_basis_points: u16,
    is_mutable: bool,
) -> MetadataRecord {
    MetadataRecord {
        mint,
        update_authority: treasury_authority(collection_mint),
        name,
        symbol,
        uri,
        seller_fee_basis_points,
        creators: Some(
            Creator {
                address: treasury_authority(collection_mint),
                verified: false,
                share: 100,
            },
        ),
        primary_sale_happened: false,
        is_mutable,
        collection: Some(CollectionRef { key: collection_mint, verified: true }),
        uses: Some(UsesInfo { use_method: UseKind::Single, remaining: 1, total: 1 }),
        collection_details: None,
    }
}

/// `rec` with its recorded collection size replaced by `size`.
pub open spec fn with_details(rec: MetadataRecord, size: u64) -> MetadataRecord {
    MetadataRecord {
        mint: rec.mint,
        update_authority: rec.update_authority,
        name: rec.name,
        symbol: rec.symbol,
        uri: rec.uri,
        seller_fee_basis_points: rec.seller_fee_basis_points,
        creators: rec.creators,
        primary_sale_happened: rec.primary_sale_happened,
        is_mutable: rec.is_mutable,
        collection: rec.collection,
        uses: rec.uses,
        collection_details: Some(size),
    }
}

impl Ledger {
    /// Exactly when a metadata creation succeeds, and with which error it
    /// fails.
    pub open spec fn create_metadata_check(
        self,
        mint: u64,
        authority: Ident,
        metadata_addr: Ident,
        edition_addr: Ident,
    ) -> Result<(), NftError> {
        if metadata_addr != metadata_address(mint) {
            Err(NftError::BadMetadataPda)
        } else if edition_addr != edition_address(mint) {
            Err(NftError::BadEditionPda)
        } else if !self.mints@.contains_key(mint) {
            Err(NftError::AccountNotFound)
        } else if self.mints@[mint].authority != authority {
            Err(NftError::AuthorityMismatch)
        } else if self.metadata@.contains_key(mint) {
            Err(NftError::AlreadyInitialized)
        } else {
            Ok(())
        }
    }

    /// Attach a metadata record to `mint`.  The record's address and its
    /// master edition's address must match their derivations from the
    /// mint; only the mint's recorded authority may attach a record; and
    /// a mint carries at most one record, ever.
    pub fn create_metadata(
        &mut self,
        mint: u64,
        authority: Ident,
        metadata_addr: Ident,
        edition_addr: Ident,
        name: String,
        symbol: String,
        uri: String,
        seller_fee_basis_points: u16,
        is_mutable: bool,
        request: IssueRequest,
    ) -> (r: Result<(), NftError>)
        requires
            old(self).inv(),
        ensures
            final(self).inv(),
            r == old(self).create_metadata_check(mint, authority, metadata_addr, edition_addr),
            r is Err ==> *final(self) == *old(self),
            r is Ok ==> final(self).metadata@ == old(self).metadata@.insert(
                mint,
                fresh_metadata(
                    mint,
                    authority,
                    name,
                    symbol,
                    uri,
                    seller_fee_basis_points,
                    is_mutable,
                    true,
                    request,
                ),
            ),
            r is Ok ==> final(self).treasuries == old(self).treasuries && final(self).mints
                == old(self).mints && final(self).balances == old(self).balances,
    {
        if metadata_addr != Ident::Derived(DomainLabel::Metadata, mint) {
            return Err(NftError::BadMetadataPda);
        }
        if edition_addr != Ident::Derived(DomainLabel::Edition, mint) {
            return Err(NftError::BadEditionPda);
        }
        let mint_authority: Ident = match self.mints.get(&mint) {
            None => {
                return Err(NftError::AccountNotFound);
            },
            Some(mi) => mi.authority,
        };
        if mint_authority != authority {
            return Err(NftError::AuthorityMismatch);
        }
        if self.metadata.contains_key(&mint) {
            return Err(NftError::AlreadyInitialized);
        }
        let collection: Option<CollectionRef> = match request {
            IssueRequest::IssueRoot => None,
            IssueRequest::IssueMember { collection_ref } => Some(
                CollectionRef { key: collection_ref, verified: false },
            ),
        };
        let uses: Option<UsesInfo> = match request {
            IssueRequest::IssueRoot => None,
            IssueRequest::IssueMember { .. } => Some(
                UsesInfo { use_method: UseKind::Single, remaining: 1, total: 1 },
            ),
        };
        let collection_details: Option<u64> = match request {
            IssueRequest::IssueRoot => Some(0u64),
            IssueRequest::IssueMember { .. } => None,
        };
        self.metadata.insert(
            mint,
            MetadataRecord {
                mint,
                update_authority: authority,
                name,
                symbol,
                uri,
                seller_fee_basis_points,
                creators: Some(Creator { address: authority, verified: false, share: 100 }),
                primary_sale_happened: false,
                is_mutable,
                collection,
                uses,
                collection_details,
            },
        );
        Ok(())
    }

    /// Create an event's root metadata record: a sized collection root of
    /// size zero, credited to and updatable only by `authority`.
    pub fn create_metadata_event(
        &mut self,
        mint: u64,
        authority: Ident,
        metadata_addr: Ident,
        edition_addr: Ident,
        name: String,
        symbol: String,
        uri: String,
        seller_fee_basis_points: u16,
        is_mutable: bool,
    ) -> (r: Result<(), NftError>)
        requires
            old(self).inv(),
        ensures
            final(self).inv(),
            r == old(self).create_metadata_check(mint, authority, metadata_addr, edition_addr),
            r is Err ==> *final(self) == *old(self),
            r is Ok ==> final(self).metadata@ == old(self).metadata@.insert(
                mint,
                fresh_metadata(
                    mint,
                    authority,
                    name,
                    symbol,
                    uri,
                    seller_fee_basis_points,
                    is_mutable,
                    true,
                    IssueRequest::IssueRoot,
                ),
            ),
            r is Ok ==> final(self).treasuries == old(self).treasuries && final(self).mints
                == old(self).mints && final(self).balances == old(self).balances,
    {
        self.create_metadata(
            mint,
            authority,
            metadata_addr,
            edition_addr,
            name,
            symbol,
            uri,
            seller_fee_basis_points,
            is_mutable,
            IssueRequest::IssueRoot,
        )
    }

    /// Create a ticket's metadata record: an unverified member of its
    /// collection with a fresh single-use counter.
    pub fn create_metadata_ticket(
        &mut self,
        mint: u64,
        collection_mint: u64,
        authority: Ident,
        metadata_addr: Ident,
        edition_addr: Ident,
        name: String,
        symbol: String,
        uri: String,
        seller_fee_basis_points: u16,
        is_mutable: bool,
    ) -> (r: Result<(), NftError>)
        requires
            old(self).inv(),
        ensures
            final(self).inv(),
            r == old(self).create_metadata_check(mint, authority, metadata_addr, edition_addr),
            r is Err ==> *final(self) == *old(self),
            r is Ok ==> final(self).metadata@ == old(self).metadata@.insert(
                mint,
                fresh_metadata(
                    mint,
                    authority,
                    name,
                    symbol,
                    uri,
                    seller_fee_basis_points,
                    is_mutable,
                    true,
                    IssueRequest::IssueMember { collection_ref: collection_mint },
                ),
            ),
            r is Ok ==> final(self).treasuries == old(self).treasuries && final(self).mints
                == old(self).mints && final(self).balances == old(self).balances,
    {
        self.create_metadata(
            mint,
            authority,
            metadata_addr,
            edition_addr,
            name,
            symbol,
            uri,
            seller_fee_basis_points,
            is_mutable,
            IssueRequest::IssueMember { collection_ref: collection_mint },
        )
    }

    /// Exactly when `collection_init` succeeds, and with which error it
    /// fails.
    pub open spec fn collection_init_check(self, mint: u64, metadata_addr: Ident) -> Result<
        (),
        NftError,
    > {
        if metadata_addr != metadata_address(mint) {
            Err(NftError::MetadatapdaMismatch)
        } else if self.treasuries@.contains_key(mint) {
            Err(NftError::AlreadyInitialized)
        } else if !self.mints@.contains_key(mint) {
            Err(NftError::AccountNotFound)
        } else if self.mints@[mint].authority != Ident::Derived(DomainLabel::MintAuthority, mint) {
            Err(NftError::AuthorityMismatch)
        } else if self.metadata@.contains_key(mint) {
            Err(NftError::AlreadyInitialized)
        } else {
            Ok(())
        }
    }

    /// Found an event on an existing mint: persist its treasury — once,
    /// a second creation for the same collection fails — and attach the
    /// size-zero collection-root record, under the mint's own derived
    /// authority.  All or nothing.
    pub fn collection_init(
        &mut self,
        payer: u64,
        mint: u64,
        metadata_addr: Ident,
        name: String,
        symbol: String,
        uri: String,
        seller_fee_basis_points: u16,
        price: u64,
        event_ts: u64,
        bump: u8,
    ) -> (r: Result<(), NftError>)
        requires
            old(self).inv(),
        ensures
            final(self).inv(),
            r == old(self).collection_init_check(mint, metadata_addr),
            r is Err ==> *final(self) == *old(self),
            r is Ok ==> final(self).treasuries@ == old(self).treasuries@.insert(
                mint,
                TreasuryAccount {
                    record: fresh_treasury(mint, event_ts, bump, price),
                    lamports: 0,
                },
            ),
            r is Ok ==> final(self).metadata@ == old(self).metadata@.insert(
                mint,
                fresh_metadata(
                    mint,
                    Ident::Derived(DomainLabel::MintAuthority, mint),
                    name,
                    symbol,
                    uri,
                    seller_fee_basis_points,
                    true,
                    false,
                    IssueRequest::IssueRoot,
                ),
            ),
            r is Ok ==> final(self).mints == old(self).mints && final(self).balances == old(
                self,
            ).balances,
    {
        if metadata_addr != Ident::Derived(DomainLabel::Metadata, mint) {
            return Err(NftError::MetadatapdaMismatch);
        }
        if self.treasuries.contains_key(&mint) {
            return Err(NftError::AlreadyInitialized);
        }
        let mint_authority: Ident = match self.mints.get(&mint) {
            None => {
                return Err(NftError::AccountNotFound);
            },
            Some(mi) => mi.authority,
        };
        if mint_authority != Ident::Derived(DomainLabel::MintAuthority, mint) {
            return Err(NftError::AuthorityMismatch);
        }
        if self.metadata.contains_key(&mint) {
            return Err(NftError::AlreadyInitialized);
        }
        self.treasuries.insert(
            mint,
            TreasuryAccount {
                record: Treasury {
                    authority: Ident::Derived(DomainLabel::Treasury, mint),
                    collection_mint: mint,
                    event_ts,
                    bump,
                    price,
                },
                lamports: 0,
            },
        );
        self.metadata.insert(
            mint,
            MetadataRecord {
                mint,
                update_authority: Ident::Derived(DomainLabel::MintAuthority, mint),
                name,
                symbol,
                uri,
                seller_fee_basis_points,
                creators: None,
                primary_sale_happened: false,
                is_mutable: true,
                collection: None,
                uses: None,
                collection_details: Some(0u64),
            },
        );
        Ok(())
    }

    /// Exactly when `ticket_init` succeeds, and with which error it fails.
    pub open spec fn ticket_init_check(self, mint: u64, metadata_addr: Ident) -> Result<
        (),
        NftError,
    > {
        if metadata_addr != metadata_address(mint) {
            Err(NftError::MetadatapdaMismatch)
        } else if !self.mints@.contains_key(mint) {
            Err(NftError::AccountNotFound)
        } else if self.mints@[mint].authority != Ident::Derived(DomainLabel::MintAuthority, mint) {
            Err(NftError::AuthorityMismatch)
        } else if self.metadata@.contains_key(mint) {
            Err(NftError::AlreadyInitialized)
        } else {
            Ok(())
        }
    }

    /// The split issuance path's first step: attach a ticket record to an
    /// existing mint, referencing `collection_mint` as a not yet verified
    /// member, with a fresh single-use counter.  Membership becomes
    /// provable only after `verify_collection`.
    pub fn ticket_init(
        &mut self,
        payer: u64,
        mint: u64,
        collection_mint: u64,
        metadata_addr: Ident,
        name: String,
        symbol: String,
        uri: String,
        seller_fee_basis_points: u16,
    ) -> (r: Result<(), NftError>)
        requires
            old(self).inv(),
        ensures
            final(self).inv(),
            r == old(self).ticket_init_check(mint, metadata_addr),
            r is Err ==> *final(self) == *old(self),
            r is Ok ==> final(self).metadata@ == old(self).metadata@.insert(
                mint,
                fresh_metadata(
                    mint,
                    Ident::Derived(DomainLabel::MintAuthority, mint),
                    name,
                    symbol,
                    uri,
                    seller_fee_basis_points,
                    true,
                    false,
                    IssueRequest::IssueMember { collection_ref: collection_mint },
                ),
            ),
            r is Ok ==> final(self).treasuries == old(self).treasuries && final(self).mints
                == old(self).mints && final(self).balances == old(self).balances,
    {
        if metadata_addr != Ident::Derived(DomainLabel::Metadata, mint) {
            return Err(NftError::MetadatapdaMismatch);
        }
        let mint_authority: Ident = match self.mints.get(&mint) {
            None => {
                return Err(NftError::AccountNotFound);
            },
            Some(mi) => mi.authority,
        };
        if mint_authority != Ident::Derived(DomainLabel::MintAuthority, mint) {
            return Err(NftError::AuthorityMismatch);
        }
        if self.metadata.contains_key(&mint) {
            return Err(NftError::AlreadyInitialized);
        }
        self.metadata.insert(
            mint,
            MetadataRecord {
                mint,
                update_authority: Ident::Derived(DomainLabel::MintAuthority, mint),
                name,
                symbol,
                uri,
                seller_fee_basis_points,
                creators: None,
                primary_sale_happened: false,
                is_mutable: true,
                collection: Some(CollectionRef { key: collection_mint, verified: false }),
                uses: Some(UsesInfo { use_method: UseKind::Single, remaining: 1, total: 1 }),
                collection_details: None,
            },
        );
        Ok(())
    }

    /// Exactly when `mint_nft_event` succeeds, and with which error it
    /// fails.
    pub open spec fn mint_nft_event_check(
        self,
        mint: u64,
        metadata_addr: Ident,
        edition_addr: Ident,
    ) -> Result<(), NftError> {
        if self.treasuries@.contains_key(mint) {
            Err(NftError::AlreadyInitialized)
        } else if self.mints@.contains_key(mint) {
            Err(NftError::AlreadyInitialized)
        } else if metadata_addr != metadata_address(mint) {
            Err(NftError::BadMetadataPda)
        } else if edition_addr != edition_address(mint) {
            Err(NftError::BadEditionPda)
        } else if self.metadata@.contains_key(mint) {
            Err(NftError::AlreadyInitialized)
        } else {
            Ok(())
        }
    }

    /// Found an event in one atomic operation: create the collection's
    /// mint and treasury, mint the one canonical root item to `owner`, and
    /// attach the size-zero collection-root record — every authority held
    /// by the collection's treasury identity, never by a user key.  All or
    /// nothing.
    pub fn mint_nft_event(
        &mut self,
        payer: u64,
        mint: u64,
        owner: u64,
        metadata_addr: Ident,
        edition_addr: Ident,
        name: String,
        symbol: String,
        uri: String,
        seller_fee_bps: u16,
        is_mutable: bool,
        price: u64,
        event_ts: u64,
        bump: u8,
    ) -> (r: Result<(), NftError>)
        requires
            old(self).inv(),
        ensures
            final(self).inv(),
            r == old(self).mint_nft_event_check(mint, metadata_addr, edition_addr),
            r is Err ==> *final(self) == *old(self),
            r is Ok ==> final(self).treasuries@ == old(self).treasuries@.insert(
                mint,
                TreasuryAccount {
                    record: fresh_treasury(mint, event_ts, bump, price),
                    lamports: 0,
                },
            ),
            r is Ok ==> final(self).mints@ == old(self).mints@.insert(
                mint,
                MintInfo {
                    authority: treasury_authority(mint),
                    supply: 1,
                    holding: Some(Holding { owner, amount: 1 }),
                },
            ),
            r is Ok ==> final(self).metadata@ == old(self).metadata@.insert(
                mint,
                fresh_metadata(
                    mint,
                    treasury_authority(mint),
                    name,
                    symbol,
                    uri,
                    seller_fee_bps,
                    is_mutable,
                    true,
                    IssueRequest::IssueRoot,
                ),
            ),
            r is Ok ==> final(self).balances == old(self).balances,
    {
        if self.treasuries.contains_key(&mint) {
            return Err(NftError::AlreadyInitialized);
        }
        if self.mints.contains_key(&mint) {
            return Err(NftError::AlreadyInitialized);
        }
        if metadata_addr != Ident::Derived(DomainLabel::Metadata, mint) {
            return Err(NftError::BadMetadataPda);
        }
        if edition_addr != Ident::Derived(DomainLabel::Edition, mint) {
            return Err(NftError::BadEditionPda);
        }
        if self.metadata.contains_key(&mint) {
            return Err(NftError::AlreadyInitialized);
        }
        self.treasuries.insert(
            mint,
            TreasuryAccount {
                record: Treasury {
                    authority: Ident::Derived(DomainLabel::Treasury, mint),
                    collection_mint: mint,
                    event_ts,
                    bump,
                    price,
                },
                lamports: 0,
            },
        );
        self.mints.insert(
            mint,
            MintInfo {
                authority: Ident::Derived(DomainLabel::Treasury, mint),
                supply: 1,
                holding: Some(Holding { owner, amount: 1 }),
            },
        );
        self.metadata.insert(
            mint,
            MetadataRecord {
                mint,
                update_authority: Ident::Derived(DomainLabel::Treasury, mint),
                name,
                symbol,
                uri,
                seller_fee_basis_points: seller_fee_bps,
                creators: Some(
                    Creator {
                        address: Ident::Derived(DomainLabel::Treasury, mint),
                        verified: false,
                        share: 100,
                    },
                ),
                primary_sale_happened: false,
                is_mutable,
                collection: None,
                uses: None,
                collection_details: Some(0u64),
            },
        );
        Ok(())
    }

    /// Exactly when `mint_nft_ticket` succeeds, and with which error it
    /// fails.
    pub open spec fn mint_nft_ticket_check(
        self,
        payer: u64,
        mint: u64,
        collection_mint: u64,
        metadata_addr: Ident,
        edition_addr: Ident,
    ) -> Result<(), NftError> {
        if self.mints@.contains_key(mint) {
            Err(NftError::AlreadyInitialized)
        } else if !self.treasuries@.contains_key(collection_mint) {
            Err(NftError::AccountNotFound)
        } else if !self.balances@.contains_key(payer) {
            Err(NftError::AccountNotFound)
        } else if self.balances@[payer] < self.treasuries@[collection_mint].record.price {
            Err(NftError::InsufficientFunds)
        } else if self.treasuries@[collection_mint].lamports
            + self.treasuries@[collection_mint].record.price > u64::MAX {
            Err(NftError::Failed)
        } else if metadata_addr != metadata_address(mint) {
            Err(NftError::BadMetadataPda)
        } else if edition_addr != edition_address(mint) {
            Err(NftError::BadEditionPda)
        } else if self.metadata@.contains_key(mint) {
            Err(NftError::AlreadyInitialized)
        } else if !self.metadata@.contains_key(collection_mint) {
            Err(NftError::AccountNotFound)
        } else if !(self.metadata@[collection_mint].collection_details is Some) {
            Err(NftError::InvalidMetadata)
        } else if self.metadata@[collection_mint].collection_details matches Some(size) && size
            == u64::MAX {
            Err(NftError::Failed)
        } else {
            Ok(())
        }
    }

    /// Issue one ticket in one atomic operation: collect exactly the
    /// treasury's price from `payer`, mint the single unit to `owner`
    /// under the treasury's derived authority, attach the ticket record
    /// with its single-use counter, and verify its collection membership —
    /// the record never exists unverified, and a failure at any step
    /// leaves the ledger untouched: no payment kept, no unit minted, no
    /// record written.
    pub fn mint_nft_ticket(
        &mut self,
        payer: u64,
        mint: u64,
        owner: u64,
        collection_mint: u64,
        metadata_addr: Ident,
        edition_addr: Ident,
        name: String,
        symbol: String,
        uri: String,
        seller_fee_bps: u16,
        is_mutable: bool,
    ) -> (r: Result<(), NftError>)
        requires
            old(self).inv(),
        ensures
            final(self).inv(),
            r == old(self).mint_nft_ticket_check(
                payer,
                mint,
                collection_mint,
                metadata_addr,
                edition_addr,
            ),
            r is Err ==> *final(self) == *old(self),
            r is Ok ==> {
                let t = old(self).treasuries@[collection_mint];
                let price = t.record.price;
                let root = old(self).metadata@[collection_mint];
                let size = root.collection_details->0;
                &&& final(self).balances@ == old(self).balances@.insert(
                    payer,
                    (old(self).balances@[payer] - price) as u64,
                )
                &&& final(self).treasuries@ == old(self).treasuries@.insert(
                    collection_mint,
                    TreasuryAccount { record: t.record, lamports: (t.lamports + price) as u64 },
                )
                &&& final(self).mints@ == old(self).mints@.insert(
                    mint,
                    MintInfo {
                        authority: treasury_authority(collection_mint),
                        supply: 1,
                        holding: Some(Holding { owner, amount: 1 }),
                    },
                )
                &&& final(self).metadata@ == old(self).metadata@.insert(
                    collection_mint,
                    with_details(root, (size + 1) as u64),
                ).insert(
                    mint,
                    issued_ticket_record(
                        mint,
                        collection_mint,
                        name,
                        symbol,
                        uri,
                        seller_fee_bps,
                        is_mutable,
                    ),
                )
            },
            r is Ok ==> final(self).metadata@[mint].collection == Some(
                CollectionRef { key: collection_mint, verified: true },
            ),
            crate::ledger::treasury_records_preserved(
                old(self).treasuries@,
                final(self).treasuries@,
            ),
    {
        if self.mints.contains_key(&mint) {
            return Err(NftError::AlreadyInitialized);
        }
        let acct: TreasuryAccount = match self.treasuries.get(&collection_mint) {
            None => {
                return Err(NftError::AccountNotFound);
            },
            Some(t) => *t,
        };
        let bal: u64 = match self.balances.get(&payer) {
            None => {
                return Err(NftError::AccountNotFound);
            },
            Some(b) => *b,
        };
        if bal < acct.record.price {
            return Err(NftError::InsufficientFunds);
        }
        if acct.lamports > u64::MAX - acct.record.price {
            return Err(NftError::Failed);
        }
        if metadata_addr != Ident::Derived(DomainLabel::Metadata, mint) {
            return Err(NftError::BadMetadataPda);
        }
        if edition_addr != Ident::Derived(DomainLabel::Edition, mint) {
            return Err(NftError::BadEditionPda);
        }
        if self.metadata.contains_key(&mint) {
            return Err(NftError::AlreadyInitialized);
        }
        let root: MetadataRecord = match self.metadata.get(&collection_mint) {
            None => {
                return Err(NftError::AccountNotFound);
            },
            Some(r) => r.duplicate(),
        };
        let size: u64 = match root.collection_details {
            None => {
                return Err(NftError::InvalidMetadata);
            },
            Some(s) => s,
        };
        if size == u64::MAX {
            return Err(NftError::Failed);
        }
        self.balances.insert(payer, bal - acct.record.price);
        self.treasuries.insert(
            collection_mint,
            TreasuryAccount {
                record: acct.record,
                lamports: acct.lamports + acct.record.price,
            },
        );
        self.mints.insert(
            mint,
            MintInfo {
                authority: Ident::Derived(DomainLabel::Treasury, collection_mint),
                supply: 1,
                holding: Some(Holding { owner, amount: 1 }),
            },
        );
        let mut new_root = root;
        new_root.collection_details = Some(size + 1);
        self.metadata.insert(collection_mint, new_root);
        self.metadata.insert(
            mint,
            MetadataRecord {
                mint,
                update_authority: Ident::Derived(DomainLabel::Treasury, collection_mint),
                name,
                symbol,
                uri,
                seller_fee_basis_points: seller_fee_bps,
                creators: Some(
                    Creator {
                        address: Ident::Derived(DomainLabel::Treasury, collection_mint),
                        verified: false,
                        share: 100,
                    },
                ),
                primary_sale_happened: false,
                is_mutable,
                collection: Some(CollectionRef { key: collection_mint, verified: true }),
                uses: Some(UsesInfo { use_method: UseKind::Single, remaining: 1, total: 1 }),
                collection_details: None,
            },
        );
        Ok(())
    }
}

} // verus!
