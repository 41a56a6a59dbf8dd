//! Event-ticketing core: a program-derived treasury escrows an event's
//! economics and exclusively holds the authorities over the event's
//! collection and its ticket items; tickets are issued against payment,
//! verified as collection members in the same atomic operation, redeemed
//! through a bounded single-use counter, and revoked only by the derived
//! authority.
//!
//! The crate has two halves:
//!
//! * an abstract ledger model (`ident`, `records`, `ledger`, `issue`,
//!   `redeem`) in which every operation of the ticketing program is a
//!   verified state transition with an exact contract, with the laws that
//!   relate the operations proved in `laws`, and
//! * a concrete address-and-bytes layer (`pda`, `metadata_bytes`) whose
//!   address derivations and metadata parsing call the real token-metadata
//!   libraries behind trusted wrappers.

pub mod errors;
pub mod ident;
pub mod issue;
pub mod laws;
pub mod ledger;
pub mod metadata_bytes;
pub mod pda;
pub mod records;
pub mod redeem;
