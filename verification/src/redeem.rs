use vstd::prelude::*;

use crate::errors::NftError;
use crate::ident::Ident;
use crate::issue::with_details;
use crate::ledger::Ledger;
use crate::records::{CollectionRef, MetadataRecord, UsesInfo};

verus! {

broadcast use vstd::std_specs::hash::group_hash_axioms;

/// `rec` with its collection reference marked verified.
pub open spec fn with_verified_collection(rec: MetadataRecord) -> MetadataRecord {
    MetadataRecord {
        mint: rec.mint,
        update_authority: rec.update_authority,
        name: rec.name,
        symbol: rec.symbol,
        uri: rec.uri,
        seller_fee_basis_points: rec.seller_fee_basis_points,
        creators: rec.creators,
        primary_sale_happened: rec.primary_sale_happened,
        is_mutable: rec.is_mutable,
        collection: Some(CollectionRef { key: rec.collection->0.key, verified: true }),
        uses: rec.uses,
        collection_details: rec.collection_details,
    }
}

/// `rec` with one use consumed.
pub open spec fn used_once(rec: MetadataRecord) -> MetadataRecord {
    MetadataRecord {
        mint: rec.mint,
        update_authority: rec.update_authority,
        name: rec.name,
        symbol: rec.symbol,
        uri: rec.uri,
        seller_fee_basis_points: rec.seller_fee_basis_points,
        creators: rec.creators,
        primary_sale_happened: rec.primary_sale_happened,
        is_mutable: rec.is_mutable,
        collection: rec.collection,
        uses: Some(
            UsesInfo {
                use_method: rec.uses->0.use_method,
                remaining: (rec.uses->0.remaining - 1) as u64,
                total: rec.uses->0.total,
            },
        ),
        collection_details: rec.collection_details,
    }
}

/// The uses a record has left; a record without a counter has none.
pub open spec fn remaining_uses(rec: MetadataRecord) -> nat {
    match rec.uses {
        Some(u) => u.remaining as nat,
        None => 0,
    }
}

/// What one redemption attempt does to the registry, whether it succeeds
/// or not: either nothing, or exactly one record with a use left loses
/// exactly one use.
pub open spec fn usage_step(
    pre: Map<u64, MetadataRecord>,
    post: Map<u64, MetadataRecord>,
) -> bool {
    ||| post == pre
    ||| exists|k: u64|
        #![auto]
        pre.contains_key(k) && remaining_uses(pre[k]) >= 1 && post == pre.insert(
            k,
            used_once(pre[k]),
        )
}

impl Ledger {
    /// Exactly when `verify_collection` succeeds, and with which error it
    /// fails.
    pub open spec fn verify_collection_check(
        self,
        mint: u64,
        collection_mint: u64,
        collection_authority: Ident,
        item_authority: Ident,
    ) -> Result<(), NftError> {
        if mint == collection_mint {
            Err(NftError::CollectionMismatch)
        } else if !self.metadata@.contains_key(mint) {
            Err(NftError::AccountNotFound)
        } else if !self.metadata@.contains_key(collection_mint) {
            Err(NftError::AccountNotFound)
        } else {
            let item = self.metadata@[mint];
            let root = self.metadata@[collection_mint];
            if item_authority != item.update_authority {
                Err(NftError::AuthorityMismatch)
            } else if collection_authority != root.update_authority {
                Err(NftError::AuthorityMismatch)
            } else {
                match item.collection {
                    None => Err(NftError::CollectionMismatch),
                    Some(c) => if c.key != collection_mint {
                        Err(NftError::CollectionMismatch)
                    } else if c.verified {
                        Err(NftError::AlreadyVerified)
                    } else {
                        match root.collection_details {
                            None => Err(NftError::InvalidMetadata),
                            Some(size) => if size == u64::MAX {
                                Err(NftError::Failed)
                            } else {
                                Ok(())
                            },
                        }
                    },
                }
            }
        }
    }

    /// Bind an item irrevocably to its collection root: mark the item's
    /// collection reference verified and count it into the root's size.
    /// Only the two derived authorities — the root's and the item's — may
    /// do so jointly; an authority derived for another collection fails
    /// the check.
    pub fn verify_collection(
        &mut self,
        mint: u64,
        collection_mint: u64,
        collection_authority: Ident,
        item_authority: Ident,
    ) -> (r: Result<(), NftError>)
        requires
            old(self).inv(),
        ensures
            final(self).inv(),
            r == old(self).verify_collection_check(
                mint,
                collection_mint,
                collection_authority,
                item_authority,
            ),
            r is Err ==> *final(self) == *old(self),
            r is Ok ==> final(self).metadata@ == old(self).metadata@.insert(
                mint,
                with_verified_collection(old(self).metadata@[mint]),
            ).insert(
                collection_mint,
                with_details(
                    old(self).metadata@[collection_mint],
                    (old(self).metadata@[collection_mint].collection_details->0 + 1) as u64,
                ),
            ),
            r is Ok ==> final(self).treasuries == old(self).treasuries && final(self).mints
                == old(self).mints && final(self).balances == old(self).balances,
            r is Ok ==> final(self).metadata@[mint].collection == Some(
                CollectionRef { key: collection_mint, verified: true },
            ),
    {
        if mint == collection_mint {
            return Err(NftError::CollectionMismatch);
        }
        let item: MetadataRecord = match self.metadata.get(&mint) {
            None => {
                return Err(NftError::AccountNotFound);
            },
            Some(rec) => rec.duplicate(),
        };
        let root: MetadataRecord = match self.metadata.get(&collection_mint) {
            None => {
                return Err(NftError::AccountNotFound);
            },
            Some(rec) => rec.duplicate(),
        };
        if item_authority != item.update_authority {
            return Err(NftError::AuthorityMismatch);
        }
        if collection_authority != root.update_authority {
            return Err(NftError::AuthorityMismatch);
        }
        let key: u64 = match item.collection {
            None => {
                return Err(NftError::CollectionMismatch);
            },
            Some(c) => {
                if c.key != collection_mint {
                    return Err(NftError::CollectionMismatch);
                }
                if c.verified {
                    return Err(NftError::AlreadyVerified);
                }
                c.key
            },
        };
        let size: u64 = match root.collection_details {
            None => {
                return Err(NftError::InvalidMetadata);
            },
            Some(s) => s,
        };
        if size == u64::MAX {
            return Err(NftError::Failed);
        }
        let mut new_item = item;
        new_item.collection = Some(CollectionRef { key, verified: true });
        self.metadata.insert(mint, new_item);
        let mut new_root = root;
        new_root.collection_details = Some(size + 1);
        self.metadata.insert(collection_mint, new_root);
        Ok(())
    }

    /// Exactly when `ticket_usage` succeeds, and with which error it
    /// fails.
    pub open spec fn ticket_usage_check(self, metadata: u64, mint: u64, owner: u64) -> Result<
        (),
        NftError,
    > {
        if !self.metadata@.contains_key(metadata) {
            Err(NftError::InvalidMetadata)
        } else {
            let rec = self.metadata@[metadata];
            if rec.mint != mint {
                Err(NftError::MetadataMintMismatch)
            } else {
                match rec.uses {
                    None => Err(NftError::NoUsesConfigured),
                    Some(u) => if u.remaining < 1 {
                        Err(NftError::NoRemainingUses)
                    } else if !self.mints@.contains_key(mint) {
                        Err(NftError::AccountNotFound)
                    } else {
                        match self.mints@[mint].holding {
                            None => Err(NftError::AuthorityMismatch),
                            Some(h) => if h.owner != owner || h.amount < 1 {
                                Err(NftError::AuthorityMismatch)
                            } else {
                                Ok(())
                            },
                        }
                    },
                }
            }
        }
    }

    /// Redeem one use of a ticket: the record must be present, describe
    /// the mint presented, carry a use counter with at least one use left,
    /// and be redeemed by the holder of the token.  Exactly one use is
    /// consumed; no operation ever adds one back, so across any sequence
    /// of redemptions the counter only falls, and it never falls below
    /// zero.
    pub fn ticket_usage(&mut self, metadata: u64, mint: u64, owner: u64) -> (r: Result<
        (),
        NftError,
    >)
        requires
            old(self).inv(),
        ensures
            final(self).inv(),
            r == old(self).ticket_usage_check(metadata, mint, owner),
            r is Err ==> *final(self) == *old(self),
            r is Ok ==> final(self).metadata@ == old(self).metadata@.insert(
                metadata,
                used_once(old(self).metadata@[metadata]),
            ),
            r is Ok ==> final(self).treasuries == old(self).treasuries && final(self).mints
                == old(self).mints && final(self).balances == old(self).balances,
            r is Ok ==> remaining_uses(final(self).metadata@[metadata]) == remaining_uses(
                old(self).metadata@[metadata],
            ) - 1,
            forall|m: u64| #[trigger]
                final(self).metadata@.contains_key(m) ==> old(self).metadata@.contains_key(m)
                    && remaining_uses(final(self).metadata@[m]) <= remaining_uses(
                    old(self).metadata@[m],
                ),
            usage_step(old(self).metadata@, final(self).metadata@),
    {
        let rec: MetadataRecord = match self.metadata.get(&metadata) {
            None => {
                return Err(NftError::InvalidMetadata);
            },
            Some(rec) => rec.duplicate(),
        };
        if rec.mint != mint {
            return Err(NftError::MetadataMintMismatch);
        }
        let uses: UsesInfo = match rec.uses {
            None => {
                return Err(NftError::NoUsesConfigured);
            },
            Some(u) => u,
        };
        if uses.remaining < 1 {
            return Err(NftError::NoRemainingUses);
        }
        match self.mints.get(&mint) {
            None => {
                return Err(NftError::AccountNotFound);
            },
            Some(mi) => {
                match mi.holding {
                    None => {
                        return Err(NftError::AuthorityMismatch);
                    },
                    Some(h) => {
                        if h.owner != owner || h.amount < 1 {
                            return Err(NftError::AuthorityMismatch);
                        }
                    },
                }
            },
        }
        let mut new_rec = rec;
        new_rec.uses = Some(
            UsesInfo {
                use_method: uses.use_method,
                remaining: uses.remaining - 1,
                total: uses.total,
            },
        );
        self.metadata.insert(metadata, new_rec);
        Ok(())
    }

    /// Exactly when `burn` succeeds, and with which error it fails.
    pub open spec fn burn_check(self, metadata: u64, mint: u64, authority: Ident) -> Result<
        (),
        NftError,
    > {
        if !self.mints@.contains_key(mint) {
            Err(NftError::AccountNotFound)
        } else if authority != self.mints@[mint].authority {
            Err(NftError::AuthorityMismatch)
        } else if self.mints@[mint].supply < 1 {
            Err(NftError::Failed)
        } else if metadata != mint {
            Err(NftError::MetadataMintMismatch)
        } else if !self.metadata@.contains_key(mint) {
            Err(NftError::AccountNotFound)
        } else {
            match self.metadata@[mint].collection {
                None => Ok(()),
                Some(c) => if !c.verified {
                    Ok(())
                } else if !self.metadata@.contains_key(c.key) {
                    Err(NftError::InvalidMetadata)
                } else {
                    match self.metadata@[c.key].collection_details {
                        None => Err(NftError::InvalidMetadata),
                        Some(size) => if size < 1 {
                            Err(NftError::InvalidMetadata)
                        } else {
                            Ok(())
                        },
                    }
                },
            }
        }
    }

    /// Permanently retire a token: destroy the mint and its metadata
    /// record, and count a verified member out of its root's size.  Only
    /// the mint's derived authority may burn — the holder's own key never
    /// passes — and a burned item supports no further operation.
    pub fn burn(&mut self, metadata: u64, mint: u64, authority: Ident) -> (r: Result<
        (),
        NftError,
    >)
        requires
            old(self).inv(),
        ensures
            final(self).inv(),
            r == old(self).burn_check(metadata, mint, authority),
            r is Err ==> *final(self) == *old(self),
            r is Ok ==> final(self).mints@ == old(self).mints@.remove(mint),
            r is Ok ==> final(self).metadata@ == (
            match old(self).metadata@[mint].collection {
                Some(c) => if c.verified {
                    old(self).metadata@.insert(
                        c.key,
                        with_details(
                            old(self).metadata@[c.key],
                            (old(self).metadata@[c.key].collection_details->0 - 1) as u64,
                        ),
                    ).remove(mint)
                } else {
                    old(self).metadata@.remove(mint)
                },
                None => old(self).metadata@.remove(mint),
            }),
            r is Ok ==> final(self).treasuries == old(self).treasuries && final(self).balances
                == old(self).balances,
            r is Ok ==> !final(self).mints@.contains_key(mint)
                && !final(self).metadata@.contains_key(mint),
    {
        match self.mints.get(&mint) {
            None => {
                return Err(NftError::AccountNotFound);
            },
            Some(mi) => {
                if authority != mi.authority {
                    return Err(NftError::AuthorityMismatch);
                }
                if mi.supply < 1 {
                    return Err(NftError::Failed);
                }
            },
        }
        if metadata != mint {
            return Err(NftError::MetadataMintMismatch);
        }
        let rec: MetadataRecord = match self.metadata.get(&mint) {
            None => {
                return Err(NftError::AccountNotFound);
            },
            Some(rec) => rec.duplicate(),
        };
        match rec.collection {
            None => {},
            Some(c) => {
                if c.verified {
                    let root: MetadataRecord = match self.metadata.get(&c.key) {
                        None => {
                            return Err(NftError::InvalidMetadata);
                        },
                        Some(rootrec) => rootrec.duplicate(),
                    };
                    let size: u64 = match root.collection_details {
                        None => {
                            return Err(NftError::InvalidMetadata);
                        },
                        Some(s) => s,
                    };
                    if size < 1 {
                        return Err(NftError::InvalidMetadata);
                    }
                    let mut new_root = root;
                    new_root.collection_details = Some(size - 1);
                    self.metadata.insert(c.key, new_root);
                }
            },
        }
        self.metadata.remove(&mint);
        self.mints.remove(&mint);
        Ok(())
    }
}

} // verus!
