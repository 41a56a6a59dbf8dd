use vstd::prelude::*;

use crate::errors::NftError;

verus! {

/// What the redemption path reads out of a serialized metadata record:
/// the recorded mint, the collection reference, and the use counter.
#[derive(Clone, Copy, PartialEq, Eq, Debug)]
pub struct ParsedCollection {
    pub key: [u8; 32],
    pub verified: bool,
}

/// A parsed use counter.
#[derive(Clone, Copy, PartialEq, Eq, Debug)]
pub struct ParsedUses {
    pub remaining: u64,
    pub total: u64,
}

/// The fields of a metadata record the ticketing logic reads, parsed from
/// the record's serialized account bytes.
#[derive(Clone, Copy, PartialEq, Eq, Debug)]
pub struct ParsedMetadata {
    pub mint: [u8; 32],
    pub collection: Option<ParsedCollection>,
    pub uses: Option<ParsedUses>,
}

/// What the registry's defensive deserialization makes of given account
/// bytes: `None` when the bytes are not a well-formed metadata record,
/// otherwise the fields the logic reads.  A pure function of the bytes.
pub uninterp spec fn parsed_metadata(data: Seq<u8>) -> Option<ParsedMetadata>;

/// Relies on `mpl_token_metadata::accounts::Metadata::safe_deserialize`:
/// the result depends on the bytes alone, and malformed bytes are a
/// recoverable `None`, never a crash.  The wrapper hands on the mint, the
/// collection reference and the use counter, field for field.
#[verifier::external_body]
pub fn parse_metadata(data: &[u8]) -> (r: Option<ParsedMetadata>)
    ensures
        r == parsed_metadata(data@),
{
    match mpl_token_metadata::accounts::Metadata::safe_deserialize(data) {
        Ok(md) => Some(
            ParsedMetadata {
                mint: md.mint.to_bytes(),
                collection: md.collection.map(
                    |c| ParsedCollection { key: c.key.to_bytes(), verified: c.verified },
                ),
                uses: md.uses.map(|u| ParsedUses { remaining: u.remaining, total: u.total }),
            },
        ),
        Err(_) => None,
    }
}

/// The redemption preconditions on a parsed record, in the order the
/// redemption path tests them: the record must describe the mint
/// presented, carry a use counter, and have a use left.  On success, the
/// uses remaining before redemption.
pub open spec fn ticket_use_check(md: ParsedMetadata, mint: Seq<u8>) -> Result<u64, NftError> {
    if md.mint@ != mint {
        Err(NftError::MetadataMintMismatch)
    } else {
        match md.uses {
            None => Err(NftError::NoUsesConfigured),
            Some(u) => if u.remaining < 1 {
                Err(NftError::NoRemainingUses)
            } else {
                Ok(u.remaining)
            },
        }
    }
}

/// Test the redemption preconditions on a record the registry handed
/// back, whatever it was: exactly [`ticket_use_check`].
pub fn validate_ticket_use(md: &ParsedMetadata, mint: &[u8; 32]) -> (r: Result<u64, NftError>)
    ensures
        r == ticket_use_check(*md, mint@),
{
    if !crate::pda::bytes32_eq(&md.mint, mint) {
        return Err(NftError::MetadataMintMismatch);
    }
    match md.uses {
        None => Err(NftError::NoUsesConfigured),
        Some(u) => {
            if u.remaining < 1 {
                Err(NftError::NoRemainingUses)
            } else {
                Ok(u.remaining)
            }
        },
    }
}

/// The checks the redemption path runs on the raw account bytes before it
/// records a use: the bytes must parse — else the record is invalid — and
/// the parsed record must pass [`ticket_use_check`] for the mint
/// presented.  On success, the uses remaining before redemption.
pub fn ticket_usage_precheck(data: &[u8], mint: &[u8; 32]) -> (r: Result<u64, NftError>)
    ensures
        r == (match parsed_metadata(data@) {
            None => Err::<u64, NftError>(NftError::InvalidMetadata),
            Some(md) => ticket_use_check(md, mint@),
        }),
{
    match parse_metadata(data) {
        None => Err(NftError::InvalidMetadata),
        Some(md) => validate_ticket_use(&md, mint),
    }
}

/// The redemption path's confirming re-read after a use is recorded: the
/// bytes must still parse to a record with a use counter.  On success,
/// the uses remaining after redemption — a count that, being unsigned,
/// can never be negative, which is the postcondition the re-read
/// confirms.
pub fn confirm_remaining(data: &[u8]) -> (r: Result<u64, NftError>)
    ensures
        r == (match parsed_metadata(data@) {
            None => Err::<u64, NftError>(NftError::InvalidMetadata),
            Some(md) => match md.uses {
                None => Err::<u64, NftError>(NftError::NoUsesConfigured),
                Some(u) => Ok::<u64, NftError>(u.remaining),
            },
        }),
{
    match parse_metadata(data) {
        None => Err(NftError::InvalidMetadata),
        Some(md) => match md.uses {
            None => Err(NftError::NoUsesConfigured),
            Some(u) => Ok(u.remaining),
        },
    }
}

} // verus!
