use vstd::prelude::*;

use crate::errors::NftError;
use crate::ident::{edition_address, metadata_address, treasury_authority, Ident};
use crate::issue::{fresh_metadata, IssueRequest};
use crate::ledger::{treasury_records_preserved, Ledger};
use crate::records::{fresh_treasury, Holding, MetadataRecord, MintInfo, TreasuryAccount};
use crate::redeem::{remaining_uses, usage_step, used_once};

verus! {

/// The uses a record under `m` has left in the registry state `md`; a
/// missing record has none.
pub open spec fn map_remaining(md: Map<u64, MetadataRecord>, m: u64) -> nat {
    if md.contains_key(m) {
        remaining_uses(md[m])
    } else {
        0
    }
}

/// One redemption attempt never raises any record's remaining uses.
pub proof fn lemma_usage_step_monotonic(
    pre: Map<u64, MetadataRecord>,
    post: Map<u64, MetadataRecord>,
    m: u64,
)
    requires
        usage_step(pre, post),
    ensures
        map_remaining(post, m) <= map_remaining(pre, m),
{
    if post != pre {
        let k = choose|k: u64|
            #![auto]
            pre.contains_key(k) && remaining_uses(pre[k]) >= 1 && post == pre.insert(
                k,
                used_once(pre[k]),
            );
        if m == k {
            assert(remaining_uses(used_once(pre[k])) == remaining_uses(pre[k]) - 1);
        }
    }
}

/// Across any sequence of redemption attempts — each one successful or
/// not — a ticket's remaining uses are non-increasing; being a count,
/// they are also never negative.
pub proof fn lemma_remaining_never_increases(
    chain: Seq<Map<u64, MetadataRecord>>,
    m: u64,
    i: int,
    j: int,
)
    requires
        forall|k: int|
            0 <= k < chain.len() - 1 ==> #[trigger] usage_step(chain[k], chain[k + 1]),
        0 <= i <= j < chain.len(),
    ensures
        map_remaining(chain[j], m) <= map_remaining(chain[i], m),
    decreases j - i,
{
    if i < j {
        lemma_remaining_never_increases(chain, m, i, j - 1);
        assert(usage_step(chain[j - 1], chain[j - 1 + 1]));
        lemma_usage_step_monotonic(chain[j - 1], chain[j], m);
    }
}

/// Founding an event and then issuing a ticket against it: when the
/// founding succeeded, the ticket's mint is fresh, and the payer can
/// cover the price, the atomic issuance is owed success — and its own
/// contract then puts the ticket on the ledger as a verified member of
/// the collection, with no state in which it exists unverified.
pub proof fn lemma_event_then_ticket_succeeds(
    l0: Ledger,
    l1: Ledger,
    c: u64,
    t: u64,
    owner: u64,
    payer: u64,
    name: String,
    symbol: String,
    uri: String,
    fee: u16,
    is_mutable: bool,
    price: u64,
    event_ts: u64,
    bump: u8,
)
    requires
        l0.mint_nft_event_check(c, metadata_address(c), edition_address(c)) is Ok,
        l1.treasuries@ == l0.treasuries@.insert(
            c,
            TreasuryAccount { record: fresh_treasury(c, event_ts, bump, price), lamports: 0 },
        ),
        l1.mints@ == l0.mints@.insert(
            c,
            MintInfo {
                authority: treasury_authority(c),
                supply: 1,
                holding: Some(Holding { owner, amount: 1 }),
            },
        ),
        l1.metadata@ == l0.metadata@.insert(
            c,
            fresh_metadata(
                c,
                treasury_authority(c),
                name,
                symbol,
                uri,
                fee,
                is_mutable,
                true,
                IssueRequest::IssueRoot,
            ),
        ),
        l1.balances == l0.balances,
        t != c,
        !l0.mints@.contains_key(t),
        !l0.metadata@.contains_key(t),
        l1.balances@.contains_key(payer),
        l1.balances@[payer] >= price,
    ensures
        l1.mint_nft_ticket_check(payer, t, c, metadata_address(t), edition_address(t)) is Ok,
{
}

/// A treasury is created at most once: a second creation for the same
/// collection fails as already initialized, on either founding path.
pub proof fn lemma_treasury_create_once(l: Ledger, mint: u64)
    requires
        l.treasuries@.contains_key(mint),
    ensures
        l.collection_init_check(mint, metadata_address(mint)) == Err::<(), NftError>(
            NftError::AlreadyInitialized,
        ),
        l.mint_nft_event_check(mint, metadata_address(mint), edition_address(mint)) == Err::<
            (),
            NftError,
        >(NftError::AlreadyInitialized),
{
}

/// Where the treasury records are preserved — as every payment's contract
/// states — every treasury's price is what it was at creation.
pub proof fn lemma_price_invariant(
    pre: Map<u64, TreasuryAccount>,
    post: Map<u64, TreasuryAccount>,
    c: u64,
)
    requires
        treasury_records_preserved(pre, post),
        pre.contains_key(c),
    ensures
        post.contains_key(c),
        post[c].record.price == pre[c].record.price,
{
}

/// A payer who cannot cover the price stops the whole issuance with
/// `InsufficientFunds` — and the operation's own contract then leaves
/// the ledger untouched: no unit minted, no record written, no payment
/// kept.
pub proof fn lemma_no_payment_no_issuance(
    l: Ledger,
    payer: u64,
    t: u64,
    c: u64,
    metadata_addr: Ident,
    edition_addr: Ident,
)
    requires
        !l.mints@.contains_key(t),
        l.treasuries@.contains_key(c),
        l.balances@.contains_key(payer),
        l.balances@[payer] < l.treasuries@[c].record.price,
    ensures
        l.mint_nft_ticket_check(payer, t, c, metadata_addr, edition_addr) == Err::<(), NftError>(
            NftError::InsufficientFunds,
        ),
{
}

/// A caller's own key never burns a token whose authority is derived:
/// the check fails with an authority mismatch, so the item survives.
pub proof fn lemma_user_key_cannot_burn(l: Ledger, metadata: u64, mint: u64, key: u64)
    requires
        l.mints@.contains_key(mint),
        l.mints@[mint].authority is Derived,
    ensures
        l.burn_check(metadata, mint, Ident::User(key)) == Err::<(), NftError>(
            NftError::AuthorityMismatch,
        ),
{
}

/// A caller's own key never mints a unit of a token whose authority is
/// derived.
pub proof fn lemma_user_key_cannot_mint(l: Ledger, mint: u64, owner: u64, key: u64)
    requires
        l.mints@.contains_key(mint),
        l.mints@[mint].authority is Derived,
    ensures
        l.mint_one_check(mint, owner, Ident::User(key)) == Err::<(), NftError>(
            NftError::AuthorityMismatch,
        ),
{
}

/// Whoever does not hold a ticket cannot redeem it, however many uses it
/// has left.
pub proof fn lemma_only_holder_redeems(l: Ledger, metadata: u64, mint: u64, caller: u64)
    requires
        l.metadata@.contains_key(metadata),
        l.metadata@[metadata].mint == mint,
        l.metadata@[metadata].uses matches Some(u) && u.remaining >= 1,
        l.mints@.contains_key(mint),
        l.mints@[mint].holding matches Some(h) && h.owner != caller,
    ensures
        l.ticket_usage_check(metadata, mint, caller) == Err::<(), NftError>(
            NftError::AuthorityMismatch,
        ),
{
}

/// Redeeming the last use leaves the counter exactly at zero.
pub proof fn lemma_last_use_reaches_zero(rec: MetadataRecord)
    requires
        rec.uses matches Some(u) && u.remaining == 1,
    ensures
        remaining_uses(used_once(rec)) == 0,
{
}

/// A ticket with no use left is refused with `NoRemainingUses`, whoever
/// redeems — and the operation's own contract then leaves every record
/// unchanged.
pub proof fn lemma_exhausted_ticket_refused(l: Ledger, metadata: u64, mint: u64, owner: u64)
    requires
        l.metadata@.contains_key(metadata),
        l.metadata@[metadata].mint == mint,
        l.metadata@[metadata].uses matches Some(u) && u.remaining == 0,
    ensures
        l.ticket_usage_check(metadata, mint, owner) == Err::<(), NftError>(
            NftError::NoRemainingUses,
        ),
{
}

/// An authority derived for one collection's treasury never verifies an
/// item into another collection whose root is owned by its own treasury
/// authority: cross-event verification always fails.
pub proof fn lemma_cross_event_isolation(
    l: Ledger,
    mint: u64,
    c_a: u64,
    c_b: u64,
    item_authority: Ident,
)
    requires
        c_a != c_b,
        l.metadata@.contains_key(c_b),
        l.metadata@[c_b].update_authority == treasury_authority(c_b),
    ensures
        l.verify_collection_check(mint, c_b, treasury_authority(c_a), item_authority) is Err,
{
    crate::ident::lemma_distinct_treasury_authorities(c_a, c_b);
}

} // verus!
