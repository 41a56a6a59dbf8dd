use vstd::prelude::*;

use std::collections::HashMap;

use crate::errors::NftError;
use crate::ident::{treasury_authority, DomainLabel, Ident};
use crate::records::{Holding, MetadataRecord, MintInfo, TreasuryAccount};

verus! {

broadcast use vstd::std_specs::hash::group_hash_axioms;

/// The shared ledger state the ticketing program operates on: one treasury
/// per collection, the token ledger's mints and holdings, the metadata
/// registry's records, and the users' value balances.
///
/// Every public operation is one atomic transaction: it either applies all
/// of its effects or returns an error and leaves the ledger exactly as it
/// was.
pub struct Ledger {
    /// The escrow of each collection, keyed by the collection's mint.
    pub treasuries: HashMap<u64, TreasuryAccount>,
    /// Every token identity, keyed by its mint.
    pub mints: HashMap<u64, MintInfo>,
    /// Every metadata record, keyed by the mint it describes (a record's
    /// address is a pure function of its mint, so the mint is the key).
    pub metadata: HashMap<u64, MetadataRecord>,
    /// The users' value balances, keyed by user key.
    pub balances: HashMap<u64, u64>,
}

/// A treasury account is well formed for its key when its record funds
/// exactly that collection and is administered by that collection's
/// derived authority.
pub open spec fn treasury_ok(t: TreasuryAccount, collection_mint: u64) -> bool {
    &&& t.record.collection_mint == collection_mint
    &&& t.record.authority == treasury_authority(collection_mint)
}

/// A metadata record is well formed for its key when it describes exactly
/// that mint and its use counter respects its bound.
pub open spec fn record_ok(r: MetadataRecord, mint: u64) -> bool {
    &&& r.mint == mint
    &&& r.wf()
}

/// The units a mint's holding account currently holds.
pub open spec fn held_amount(mi: MintInfo) -> u64 {
    match mi.holding {
        Some(h) => h.amount,
        None => 0,
    }
}

/// No treasury record — its price included — is lost or changed between
/// the two map states; only balances beside the records may move.
pub open spec fn treasury_records_preserved(
    pre: Map<u64, TreasuryAccount>,
    post: Map<u64, TreasuryAccount>,
) -> bool {
    forall|c: u64| #[trigger]
        pre.contains_key(c) ==> post.contains_key(c) && post[c].record == pre[c].record
}

/// The mint after one unit is minted to `owner`'s holding.
pub open spec fn minted_one(mi: MintInfo, owner: u64) -> MintInfo {
    MintInfo {
        authority: mi.authority,
        supply: (mi.supply + 1) as u64,
        holding: Some(Holding { owner, amount: (held_amount(mi) + 1) as u64 }),
    }
}

impl Ledger {
    /// The ledger's invariant: every record is well formed for the key it
    /// sits under.  Every operation preserves it.
    pub open spec fn inv(self) -> bool {
        &&& forall|c: u64|
            #[trigger] self.treasuries@.contains_key(c) ==> treasury_ok(self.treasuries@[c], c)
        &&& forall|m: u64|
            #[trigger] self.metadata@.contains_key(m) ==> record_ok(self.metadata@[m], m)
    }

    /// An empty ledger.
    pub fn new() -> (r: Ledger)
        ensures
            r.inv(),
            r.treasuries@ == Map::<u64, TreasuryAccount>::empty(),
            r.mints@ == Map::<u64, MintInfo>::empty(),
            r.metadata@ == Map::<u64, MetadataRecord>::empty(),
            r.balances@ == Map::<u64, u64>::empty(),
    {
        Ledger {
            treasuries: HashMap::new(),
            mints: HashMap::new(),
            metadata: HashMap::new(),
            balances: HashMap::new(),
        }
    }

    /// Fund a user's balance, as the surrounding system does before any
    /// ticketing operation runs.  Creates or overwrites the balance.
    pub fn fund(&mut self, user: u64, amount: u64)
        requires
            old(self).inv(),
        ensures
            final(self).inv(),
            final(self).balances@ == old(self).balances@.insert(user, amount),
            final(self).treasuries == old(self).treasuries,
            final(self).mints == old(self).mints,
            final(self).metadata == old(self).metadata,
    {
        self.balances.insert(user, amount);
    }

    /// Exactly when `init_mint` succeeds, and with which error it fails.
    pub open spec fn init_mint_check(self, mint: u64) -> Result<(), NftError> {
        if self.mints@.contains_key(mint) {
            Err(NftError::AlreadyInitialized)
        } else {
            Ok(())
        }
    }

    /// Create a standalone mint whose minting authority is the per-mint
    /// derived authority.  Fails if the mint already exists.
    pub fn init_mint(&mut self, mint: u64) -> (r: Result<(), NftError>)
        requires
            old(self).inv(),
        ensures
            final(self).inv(),
            r == old(self).init_mint_check(mint),
            r is Err ==> *final(self) == *old(self),
            r is Ok ==> final(self).mints@ == old(self).mints@.insert(
                mint,
                MintInfo {
                    authority: Ident::Derived(DomainLabel::MintAuthority, mint),
                    supply: 0,
                    holding: None,
                },
            ),
            r is Ok ==> final(self).treasuries == old(self).treasuries && final(self).metadata
                == old(self).metadata && final(self).balances == old(self).balances,
    {
        if self.mints.contains_key(&mint) {
            return Err(NftError::AlreadyInitialized);
        }
        self.mints.insert(
            mint,
            MintInfo {
                authority: Ident::Derived(DomainLabel::MintAuthority, mint),
                supply: 0,
                holding: None,
            },
        );
        Ok(())
    }

    /// Exactly when `mint_one` succeeds, and with which error it fails.
    pub open spec fn mint_one_check(self, mint: u64, owner: u64, authority: Ident) -> Result<
        (),
        NftError,
    > {
        if !self.mints@.contains_key(mint) {
            Err(NftError::AccountNotFound)
        } else if self.mints@[mint].authority != authority {
            Err(NftError::AuthorityMismatch)
        } else if self.mints@[mint].supply == u64::MAX {
            Err(NftError::Failed)
        } else {
            match self.mints@[mint].holding {
                None => Ok(()),
                Some(h) => if h.owner != owner {
                    Err(NftError::Failed)
                } else if h.amount == u64::MAX {
                    Err(NftError::Failed)
                } else {
                    Ok(())
                },
            }
        }
    }

    /// Mint one unit of `mint` to `owner`'s holding.  Only the mint's
    /// recorded authority may mint: a caller presenting any other identity
    /// — in particular any user key — is refused.
    pub fn mint_one(&mut self, mint: u64, owner: u64, authority: Ident) -> (r: Result<
        (),
        NftError,
    >)
        requires
            old(self).inv(),
        ensures
            final(self).inv(),
            r == old(self).mint_one_check(mint, owner, authority),
            r is Err ==> *final(self) == *old(self),
            r is Ok ==> final(self).mints@ == old(self).mints@.insert(
                mint,
                minted_one(old(self).mints@[mint], owner),
            ),
            r is Ok ==> final(self).treasuries == old(self).treasuries && final(self).metadata
                == old(self).metadata && final(self).balances == old(self).balances,
    {
        let mi: MintInfo = match self.mints.get(&mint) {
            None => {
                return Err(NftError::AccountNotFound);
            },
            Some(m) => *m,
        };
        if mi.authority != authority {
            return Err(NftError::AuthorityMismatch);
        }
        if mi.supply == u64::MAX {
            return Err(NftError::Failed);
        }
        let held: u64 = match mi.holding {
            None => 0,
            Some(h) => {
                if h.owner != owner {
                    return Err(NftError::Failed);
                }
                if h.amount == u64::MAX {
                    return Err(NftError::Failed);
                }
                h.amount
            },
        };
        self.mints.insert(
            mint,
            MintInfo {
                authority: mi.authority,
                supply: mi.supply + 1,
                holding: Some(Holding { owner, amount: held + 1 }),
            },
        );
        Ok(())
    }

    /// Mint one unit of `mint` to `owner`, signed by the program with the
    /// per-mint derived authority — a caller never supplies an identity.
    pub fn mint_nft(&mut self, mint: u64, owner: u64) -> (r: Result<(), NftError>)
        requires
            old(self).inv(),
        ensures
            final(self).inv(),
            r == old(self).mint_one_check(
                mint,
                owner,
                Ident::Derived(DomainLabel::MintAuthority, mint),
            ),
            r is Err ==> *final(self) == *old(self),
            r is Ok ==> final(self).mints@ == old(self).mints@.insert(
                mint,
                minted_one(old(self).mints@[mint], owner),
            ),
            r is Ok ==> final(self).treasuries == old(self).treasuries && final(self).metadata
                == old(self).metadata && final(self).balances == old(self).balances,
    {
        let authority = Ident::Derived(DomainLabel::MintAuthority, mint);
        self.mint_one(mint, owner, authority)
    }

    /// Mint one unit of an event's collection root to `owner`, signed by
    /// the program with the collection's treasury authority.
    pub fn mint_one_event(&mut self, collection_mint: u64, owner: u64) -> (r: Result<
        (),
        NftError,
    >)
        requires
            old(self).inv(),
        ensures
            final(self).inv(),
            r == old(self).mint_one_check(collection_mint, owner, treasury_authority(
                collection_mint,
            )),
            r is Err ==> *final(self) == *old(self),
            r is Ok ==> final(self).mints@ == old(self).mints@.insert(
                collection_mint,
                minted_one(old(self).mints@[collection_mint], owner),
            ),
            r is Ok ==> final(self).treasuries == old(self).treasuries && final(self).metadata
                == old(self).metadata && final(self).balances == old(self).balances,
    {
        let authority = Ident::Derived(DomainLabel::Treasury, collection_mint);
        self.mint_one(collection_mint, owner, authority)
    }

    /// Exactly when a payment into a collection's treasury succeeds, and
    /// with which error it fails.
    pub open spec fn ticket_payment_check(self, payer: u64, collection_mint: u64) -> Result<
        (),
        NftError,
    > {
        if !self.treasuries@.contains_key(collection_mint) {
            Err(NftError::AccountNotFound)
        } else if !self.balances@.contains_key(payer) {
            Err(NftError::AccountNotFound)
        } else if self.balances@[payer] < self.treasuries@[collection_mint].record.price {
            Err(NftError::InsufficientFunds)
        } else if self.treasuries@[collection_mint].lamports
            + self.treasuries@[collection_mint].record.price > u64::MAX {
            Err(NftError::Failed)
        } else {
            Ok(())
        }
    }

    /// Transfer exactly the treasury's price from `payer` into the
    /// treasury.  This is the only way a treasury's balance changes, and
    /// it never touches the treasury's record.
    pub fn ticket_payment(&mut self, payer: u64, collection_mint: u64) -> (r: Result<
        (),
        NftError,
    >)
        requires
            old(self).inv(),
        ensures
            final(self).inv(),
            r == old(self).ticket_payment_check(payer, collection_mint),
            r is Err ==> *final(self) == *old(self),
            r is Ok ==> {
                let t = old(self).treasuries@[collection_mint];
                let price = t.record.price;
                &&& final(self).balances@ == old(self).balances@.insert(
                    payer,
                    (old(self).balances@[payer] - price) as u64,
                )
                &&& final(self).treasuries@ == old(self).treasuries@.insert(
                    collection_mint,
                    TreasuryAccount { record: t.record, lamports: (t.lamports + price) as u64 },
                )
                &&& final(self).mints == old(self).mints
                &&& final(self).metadata == old(self).metadata
            },
            treasury_records_preserved(old(self).treasuries@, final(self).treasuries@),
    {
        let acct: TreasuryAccount = match self.treasuries.get(&collection_mint) {
            None => {
                return Err(NftError::AccountNotFound);
            },
            Some(t) => *t,
        };
        let bal: u64 = match self.balances.get(&payer) {
            None => {
                return Err(NftError::AccountNotFound);
            },
            Some(b) => *b,
        };
        if bal < acct.record.price {
            return Err(NftError::InsufficientFunds);
        }
        if acct.lamports > u64::MAX - acct.record.price {
            return Err(NftError::Failed);
        }
        self.balances.insert(payer, bal - acct.record.price);
        self.treasuries.insert(
            collection_mint,
            TreasuryAccount {
                record: acct.record,
                lamports: acct.lamports + acct.record.price,
            },
        );
        Ok(())
    }

    /// The payment step of a ticket purchase: the same transfer as
    /// `ticket_payment`, under the name the purchase flow uses.
    pub fn buy_ticket(&mut self, payer: u64, collection_mint: u64) -> (r: Result<(), NftError>)
        requires
            old(self).inv(),
        ensures
            final(self).inv(),
            r == old(self).ticket_payment_check(payer, collection_mint),
            r is Err ==> *final(self) == *old(self),
            r is Ok ==> {
                let t = old(self).treasuries@[collection_mint];
                let price = t.record.price;
                &&& final(self).balances@ == old(self).balances@.insert(
                    payer,
                    (old(self).balances@[payer] - price) as u64,
                )
                &&& final(self).treasuries@ == old(self).treasuries@.insert(
                    collection_mint,
                    TreasuryAccount { record: t.record, lamports: (t.lamports + price) as u64 },
                )
                &&& final(self).mints == old(self).mints
                &&& final(self).metadata == old(self).metadata
            },
            treasury_records_preserved(old(self).treasuries@, final(self).treasuries@),
    {
        self.ticket_payment(payer, collection_mint)
    }
}

} // verus!
