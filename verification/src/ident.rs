use vstd::prelude::*;

verus! {

/// The domain labels under which the program derives authority and
/// record addresses.  Each label is one seed family of the underlying
/// derivation.
#[derive(Clone, Copy, PartialEq, Eq, Structural, Debug)]
pub enum DomainLabel {
    /// The per-mint minting authority.
    MintAuthority,
    /// The per-collection treasury: escrow and owner of every authority
    /// over the collection and its items.
    Treasury,
    /// The address of a mint's metadata record.
    Metadata,
    /// The address of a mint's master-edition record.
    Edition,
}

/// An identity in the ledger model: either an externally controlled user
/// key, or an authority derived from a domain label and an owning entity.
///
/// A derived identity is a pure function of its inputs, so it is
/// reproducible by anyone who knows them, distinct inputs give distinct
/// identities, and no user key ever equals a derived identity.  Possession
/// of the pair itself stands for the self-certifying derivation proof: the
/// issuing logic reconstructs it, an outside caller cannot forge the
/// `Derived` constructor for an authority check it does not pass.
#[derive(Clone, Copy, PartialEq, Eq, Structural, Debug)]
pub enum Ident {
    /// An externally controlled key, named by the model's account number.
    User(u64),
    /// The authority derived from a domain label and its owner's mint.
    Derived(DomainLabel, u64),
}

/// The treasury authority of a collection: one per collection, and the
/// exclusive holder of mint, update and verification authority over the
/// collection root and all its items.
pub open spec fn treasury_authority(collection_mint: u64) -> Ident {
    Ident::Derived(DomainLabel::Treasury, collection_mint)
}

/// The address at which a mint's metadata record lives in the model.
pub open spec fn metadata_address(mint: u64) -> Ident {
    Ident::Derived(DomainLabel::Metadata, mint)
}

/// The address at which a mint's master-edition record lives in the model.
pub open spec fn edition_address(mint: u64) -> Ident {
    Ident::Derived(DomainLabel::Edition, mint)
}

/// Derive the authority identity for a domain label and owner.  This is
/// the model's authority-derivation primitive: deterministic, stateless,
/// and injective in its owner for a fixed label.
pub fn derive_authority(label: DomainLabel, owner: u64) -> (r: Ident)
    ensures
        r == Ident::Derived(label, owner),
{
    Ident::Derived(label, owner)
}

/// Two distinct collections derive two distinct treasury authorities:
/// an authority valid for one event can never pass a check made against
/// another event's records.
pub proof fn lemma_distinct_treasury_authorities(c1: u64, c2: u64)
    requires
        c1 != c2,
    ensures
        treasury_authority(c1) != treasury_authority(c2),
{
}

/// No user key is ever a derived authority: an operation gated on a
/// derived authority can never be passed by a caller's own key.
pub proof fn lemma_user_key_is_never_derived(label: DomainLabel, owner: u64, key: u64)
    ensures
        Ident::User(key) != Ident::Derived(label, owner),
{
}

} // verus!
