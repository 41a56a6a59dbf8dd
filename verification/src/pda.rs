use vstd::prelude::*;

use anchor_lang::solana_program::pubkey::Pubkey;

use crate::errors::{ErrorCode, NftError};

verus! {

/// The token-metadata registry's deployed program id, as its 32 bytes.
pub const TOKEN_METADATA_PROGRAM_ID: [u8; 32] = [
    11, 112, 101, 177, 227, 209, 124, 69, 56, 157, 82, 127, 107, 4, 195, 205, 88, 184, 108, 115,
    26, 160, 253, 181, 73, 182, 209, 188, 3, 248, 41, 70,
];

/// What the program-address derivation returns for given seeds and program
/// id: `None` when no viable address exists for them, otherwise the
/// derived 32-byte address and its bump seed.  The derivation is a pure
/// function of its inputs; nothing more is assumed of it.
pub uninterp spec fn pda_of(seeds: Seq<Seq<u8>>, program: Seq<u8>) -> Option<(Seq<u8>, u8)>;

/// The byte views of a list of seed buffers.
pub open spec fn seeds_view(seeds: Seq<Vec<u8>>) -> Seq<Seq<u8>> {
    seeds.map_values(|s: Vec<u8>| s@)
}

/// Relies on solana `Pubkey::try_find_program_address`: the result depends
/// on the seeds and the program id alone; `Some` carries the derived
/// 32-byte address and its bump seed, `None` means no viable address
/// exists for these inputs (too many seeds, an over-long seed, or no
/// off-curve candidate).
#[verifier::external_body]
fn try_find_pda(seeds: &Vec<Vec<u8>>, program: &[u8; 32]) -> (r: Option<([u8; 32], u8)>)
    ensures
        (match r {
            Some(p) => pda_of(seeds_view(seeds@), program@) == Some((p.0@, p.1)),
            None => pda_of(seeds_view(seeds@), program@) is None,
        }),
{
    let refs: Vec<&[u8]> = seeds.iter().map(|s| s.as_slice()).collect();
    let program_id = Pubkey::new_from_array(*program);
    Pubkey::try_find_program_address(&refs, &program_id).map(|(pk, bump)| (pk.to_bytes(), bump))
}

/// The seed prefix of a metadata record's address: the bytes of
/// `"metadata"`.
pub open spec fn metadata_seed() -> Seq<u8> {
    seq![109u8, 101u8, 116u8, 97u8, 100u8, 97u8, 116u8, 97u8]
}

/// The trailing seed of a master-edition address: the bytes of
/// `"edition"`.
pub open spec fn edition_seed() -> Seq<u8> {
    seq![101u8, 100u8, 105u8, 116u8, 105u8, 111u8, 110u8]
}

/// The seeds from which a mint's metadata address derives.
pub open spec fn metadata_pda_seeds(mint: Seq<u8>) -> Seq<Seq<u8>> {
    seq![metadata_seed(), TOKEN_METADATA_PROGRAM_ID@, mint]
}

/// The seeds from which a mint's master-edition address derives.
pub open spec fn edition_pda_seeds(mint: Seq<u8>) -> Seq<Seq<u8>> {
    seq![metadata_seed(), TOKEN_METADATA_PROGRAM_ID@, mint, edition_seed()]
}

/// `addr` is the metadata address derived from `mint`.
pub open spec fn is_metadata_pda(mint: Seq<u8>, addr: Seq<u8>) -> bool {
    pda_of(metadata_pda_seeds(mint), TOKEN_METADATA_PROGRAM_ID@) matches Some(p) && p.0 == addr
}

/// `addr` is the master-edition address derived from `mint`.
pub open spec fn is_edition_pda(mint: Seq<u8>, addr: Seq<u8>) -> bool {
    pda_of(edition_pda_seeds(mint), TOKEN_METADATA_PROGRAM_ID@) matches Some(p) && p.0 == addr
}

/// The bytes of a 32-byte key as a growable buffer.
fn bytes32_to_vec(b: &[u8; 32]) -> (r: Vec<u8>)
    ensures
        r@ == b@,
{
    let mut r: Vec<u8> = Vec::new();
    let mut i: usize = 0;
    while i < 32
        invariant
            i <= 32,
            r@ == b@.subrange(0, i as int),
        decreases 32 - i,
    {
        r.push(b[i]);
        i = i + 1;
    }
    proof {
        assert(r@ =~= b@);
    }
    r
}

/// The `"metadata"` seed prefix as a buffer.
fn metadata_seed_exec() -> (r: Vec<u8>)
    ensures
        r@ == metadata_seed(),
{
    let mut r: Vec<u8> = Vec::new();
    r.push(109u8);
    r.push(101u8);
    r.push(116u8);
    r.push(97u8);
    r.push(100u8);
    r.push(97u8);
    r.push(116u8);
    r.push(97u8);
    proof {
        assert(r@ =~= metadata_seed());
    }
    r
}

/// The `"edition"` seed as a buffer.
fn edition_seed_exec() -> (r: Vec<u8>)
    ensures
        r@ == edition_seed(),
{
    let mut r: Vec<u8> = Vec::new();
    r.push(101u8);
    r.push(100u8);
    r.push(105u8);
    r.push(116u8);
    r.push(105u8);
    r.push(111u8);
    r.push(110u8);
    proof {
        assert(r@ =~= edition_seed());
    }
    r
}

/// The program id bytes as a buffer.
fn program_id_vec() -> (r: Vec<u8>)
    ensures
        r@ == TOKEN_METADATA_PROGRAM_ID@,
{
    bytes32_to_vec(&TOKEN_METADATA_PROGRAM_ID)
}

/// Derive the metadata address of `mint`, with its bump: `None` exactly
/// when the derivation admits no address for it.
pub fn find_metadata_pda(mint: &[u8; 32]) -> (r: Option<([u8; 32], u8)>)
    ensures
        (match r {
            Some(p) => pda_of(metadata_pda_seeds(mint@), TOKEN_METADATA_PROGRAM_ID@) == Some(
                (p.0@, p.1),
            ),
            None => pda_of(metadata_pda_seeds(mint@), TOKEN_METADATA_PROGRAM_ID@) is None,
        }),
{
    let mut seeds: Vec<Vec<u8>> = Vec::new();
    seeds.push(metadata_seed_exec());
    seeds.push(program_id_vec());
    seeds.push(bytes32_to_vec(mint));
    proof {
        assert(seeds_view(seeds@) =~= metadata_pda_seeds(mint@));
    }
    try_find_pda(&seeds, &TOKEN_METADATA_PROGRAM_ID)
}

/// Derive the master-edition address of `mint`, with its bump.
pub fn find_edition_pda(mint: &[u8; 32]) -> (r: Option<([u8; 32], u8)>)
    ensures
        (match r {
            Some(p) => pda_of(edition_pda_seeds(mint@), TOKEN_METADATA_PROGRAM_ID@) == Some(
                (p.0@, p.1),
            ),
            None => pda_of(edition_pda_seeds(mint@), TOKEN_METADATA_PROGRAM_ID@) is None,
        }),
{
    let mut seeds: Vec<Vec<u8>> = Vec::new();
    seeds.push(metadata_seed_exec());
    seeds.push(program_id_vec());
    seeds.push(bytes32_to_vec(mint));
    seeds.push(edition_seed_exec());
    proof {
        assert(seeds_view(seeds@) =~= edition_pda_seeds(mint@));
    }
    try_find_pda(&seeds, &TOKEN_METADATA_PROGRAM_ID)
}

/// Derive the authority address a program `program` owns for `label` and
/// `owner` — the derivation behind the per-mint and per-treasury
/// authorities, whose proof is the returned bump.
pub fn derive_authority_pda(label: &Vec<u8>, owner: &[u8; 32], program: &[u8; 32]) -> (r: Option<
    ([u8; 32], u8),
>)
    ensures
        (match r {
            Some(p) => pda_of(seq![label@, owner@], program@) == Some((p.0@, p.1)),
            None => pda_of(seq![label@, owner@], program@) is None,
        }),
{
    let mut seeds: Vec<Vec<u8>> = Vec::new();
    let mut l: Vec<u8> = Vec::new();
    let mut i: usize = 0;
    while i < label.len()
        invariant
            i <= label.len(),
            l@ == label@.subrange(0, i as int),
        decreases label.len() - i,
    {
        l.push(label[i]);
        i = i + 1;
    }
    proof {
        assert(l@ =~= label@);
    }
    seeds.push(l);
    seeds.push(bytes32_to_vec(owner));
    proof {
        assert(seeds_view(seeds@) =~= seq![label@, owner@]);
    }
    try_find_pda(&seeds, program)
}

/// The two 32-byte keys are the same address.
pub fn bytes32_eq(a: &[u8; 32], b: &[u8; 32]) -> (r: bool)
    ensures
        r == (a@ == b@),
{
    let mut i: usize = 0;
    while i < 32
        invariant
            i <= 32,
            forall|j: int| 0 <= j < i ==> a@[j] == b@[j],
        decreases 32 - i,
    {
        if a[i] != b[i] {
            assert(a@[i as int] != b@[i as int]);
            return false;
        }
        i = i + 1;
    }
    proof {
        assert(a@ =~= b@);
    }
    true
}

/// The address checks the issuance paths run before writing anything: the
/// presented metadata and master-edition addresses must equal their
/// derivations from the mint — a caller pointing the operation at an
/// unrelated or forged record slot is refused before any effect.
pub fn pda_checks(mint: &[u8; 32], metadata: &[u8; 32], master_edition: &[u8; 32]) -> (r: Result<
    (),
    NftError,
>)
    ensures
        r is Ok <==> is_metadata_pda(mint@, metadata@) && is_edition_pda(mint@, master_edition@),
        !is_metadata_pda(mint@, metadata@) ==> r == Err::<(), NftError>(NftError::BadMetadataPda),
        is_metadata_pda(mint@, metadata@) && !is_edition_pda(mint@, master_edition@) ==> r
            == Err::<(), NftError>(NftError::BadEditionPda),
{
    match find_metadata_pda(mint) {
        None => {
            return Err(NftError::BadMetadataPda);
        },
        Some((pda, _bump)) => {
            if !bytes32_eq(&pda, metadata) {
                return Err(NftError::BadMetadataPda);
            }
        },
    }
    match find_edition_pda(mint) {
        None => {
            return Err(NftError::BadEditionPda);
        },
        Some((pda, _bump)) => {
            if !bytes32_eq(&pda, master_edition) {
                return Err(NftError::BadEditionPda);
            }
        },
    }
    Ok(())
}

/// The collection path's single address check: the presented metadata
/// address must equal its derivation from the collection's mint.
pub fn check_metadata_pda(mint: &[u8; 32], metadata: &[u8; 32]) -> (r: Result<(), ErrorCode>)
    ensures
        r is Ok <==> is_metadata_pda(mint@, metadata@),
        r is Err ==> r == Err::<(), ErrorCode>(ErrorCode::MetadatapdaMismatch),
{
    match find_metadata_pda(mint) {
        None => Err(ErrorCode::MetadatapdaMismatch),
        Some((pda, _bump)) => {
            if bytes32_eq(&pda, metadata) {
                Ok(())
            } else {
                Err(ErrorCode::MetadatapdaMismatch)
            }
        },
    }
}

} // verus!
