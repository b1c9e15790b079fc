//! Status codes, kind tags and field sizes shared by every component.

use vstd::prelude::*;

verus! {

/// The transaction is a legal transition.
pub const SUCCESS: i8 = 0;
/// The argument record is short or carries an unknown tag or mode.
pub const ERROR_INVALID_ARGS: i8 = -1;
/// A record is too short to parse.
pub const ERROR_ENCODING: i8 = -2;
/// The host failed to answer a query that has no end-of-collection meaning.
pub const ERROR_SYSCALL: i8 = -3;
/// No metadata record for the event stands among the cell dependencies.
pub const ERROR_METADATA_NOT_FOUND: i8 = -4;
/// The operation is attempted outside its time window.
pub const ERROR_INVALID_TIMING: i8 = -5;
/// The voter did not prove eligibility.
pub const ERROR_VOTER_INELIGIBLE: i8 = -6;
/// The voter has used up the permitted ballots.
pub const ERROR_REVOTE_LIMIT_EXCEEDED: i8 = -7;
/// The result is released before voting has ended.
pub const ERROR_TIMELOCK_NOT_EXPIRED: i8 = -8;
/// Fewer release signatures are presented than the event requires.
pub const ERROR_INSUFFICIENT_SIGNATURES: i8 = -9;
/// The organizer's signature over the transaction digest is missing or wrong.
pub const ERROR_UNAUTHORIZED_WITHDRAWAL: i8 = -10;
/// The escrow fund is spent without a ballot, or a ballot is not funded.
pub const ERROR_EVENTFUND_MISUSE: i8 = -11;
/// The metadata record is consumed while the event is still active.
pub const ERROR_METADATA_IMMUTABLE: i8 = -12;
/// Too few voters took part for the result to be disclosed.
pub const ERROR_K_ANONYMITY_VIOLATION: i8 = -13;
/// A release signer is not authorized or the signature does not validate.
/// The code -14 stays free: it belongs to the comparison of a tally with its
/// ballots, which the engine does not make.
pub const ERROR_INVALID_SIGNATURE: i8 = -15;

/// Kind tag of an escrow fund record.
pub const EVENTFUND_TYPE: u8 = 0;
/// Kind tag of an event metadata record.
pub const METADATA_TYPE: u8 = 1;
/// Kind tag of a voter ballot record.
pub const VOTER_TYPE: u8 = 2;
/// Kind tag of a result record.
pub const RESULT_TYPE: u8 = 3;

/// Length of an event identifier.
pub const EVENT_ID_SIZE: usize = 32;
/// Length of an identity hash.
pub const PUBKEY_HASH_SIZE: usize = 20;
/// Length of a compressed public key.
pub const PUBKEY_SIZE: usize = 33;
/// Length of a signature, `r` followed by `s`.
pub const SIGNATURE_SIZE: usize = 64;
/// Length of one signature block of a witness: public key, then signature.
pub const SIGNATURE_BLOCK_SIZE: usize = 97;
/// Length of a timestamp.
pub const TIMESTAMP_SIZE: usize = 8;
/// Length of a digest.
pub const BLAKE2B_HASH_SIZE: usize = 32;

/// Anyone with a valid signature may vote.
pub const ELIGIBILITY_PUBLIC: u8 = 0;
/// A voter also presents a signature of the invite issuer.
pub const ELIGIBILITY_INVITE_KEY: u8 = 1;
/// Voters come from a list kept by the organizer.
pub const ELIGIBILITY_CURATED_LIST: u8 = 2;

/// The value of `max_revotes` that lifts the limit.
pub const UNLIMITED_REVOTES: u8 = 255;

} // verus!
