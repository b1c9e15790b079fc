//! The four kind validators.
//!
//! Each validator has a verdict function that says, for every snapshot, which
//! status code is owed; the executable validator returns exactly that code.
//! Checks are made in a fixed order and the first failure decides.

use vstd::prelude::*;
use vstd::slice::slice_subrange;
use crate::codec::{
    parse_metadata, parsed_metadata, MetadataView, ParsedMetadata, MAX_SIGNERS, SIGNERS_OFFSET,
};
use crate::codes::{
    ELIGIBILITY_CURATED_LIST, ELIGIBILITY_INVITE_KEY, ERROR_EVENTFUND_MISUSE,
    ERROR_INSUFFICIENT_SIGNATURES, ERROR_INVALID_ARGS, ERROR_INVALID_SIGNATURE, ERROR_INVALID_TIMING,
    ERROR_K_ANONYMITY_VIOLATION, ERROR_METADATA_IMMUTABLE, ERROR_METADATA_NOT_FOUND,
    ERROR_REVOTE_LIMIT_EXCEEDED, ERROR_TIMELOCK_NOT_EXPIRED,
    ERROR_UNAUTHORIZED_WITHDRAWAL, ERROR_VOTER_INELIGIBLE, EVENTFUND_TYPE, SUCCESS,
    PUBKEY_HASH_SIZE, SIGNATURE_BLOCK_SIZE, UNLIMITED_REVOTES, VOTER_TYPE,
};
use crate::bytes::{bytes_equal, read_array};
use crate::crypto::{compute_pubkey_hash, identity_hash, signed_by, verify_signature_by_hash};
use crate::ledger::{load_current_timestamp, load_witness, Ledger, Source};
use crate::scan::{
    compute_tx_hash, count_event_ballots, count_voter_ballots, event_ballots, event_metadata,
    has_record, load_metadata, load_metadata_record, metadata_record, record_present, tx_digest,
    voter_ballots,
};

verus! {

/// The first witness proves the identity `identity` over the transaction
/// digest.
pub open spec fn witness_signed_by(ledger: &Ledger, identity: Seq<u8>) -> bool {
    match ledger.witness(0) {
        Some(w) => signed_by(identity, w, tx_digest(ledger)),
        None => false,
    }
}

/// The verdict on a cleanup: legal only with the organizer's signature.
pub open spec fn cleanup_verdict(ledger: &Ledger, m: MetadataView) -> i8 {
    if witness_signed_by(ledger, m.organizer_lock_hash) {
        SUCCESS
    } else {
        ERROR_UNAUTHORIZED_WITHDRAWAL
    }
}

/// `now` lies in the voting window, both ends included.
pub open spec fn in_voting_window(m: MetadataView, now: int) -> bool {
    m.voting_start <= now <= m.voting_end
}

/// The verdict on spending the escrow fund at the time `now`.
pub open spec fn eventfund_verdict_at(ledger: &Ledger, event_id: Seq<u8>, m: MetadataView, now: int) -> i8 {
    if in_voting_window(m, now) {
        if record_present(ledger, Source::Output, VOTER_TYPE, event_id) {
            SUCCESS
        } else {
            ERROR_EVENTFUND_MISUSE
        }
    } else if now >= m.audit_end_time {
        cleanup_verdict(ledger, m)
    } else {
        ERROR_INVALID_TIMING
    }
}

/// The verdict on consuming the metadata record at the time `now`.
pub open spec fn metadata_verdict_at(ledger: &Ledger, m: MetadataView, now: int) -> i8 {
    if now >= m.audit_end_time {
        cleanup_verdict(ledger, m)
    } else {
        ERROR_METADATA_IMMUTABLE
    }
}

/// The voter proves eligibility. With an invite key the first witness holds
/// two signature blocks, the voter's and the organizer's; in the other modes
/// it holds the voter's.
pub open spec fn voter_eligible(ledger: &Ledger, m: MetadataView, voter: Seq<u8>) -> bool {
    match ledger.witness(0) {
        Some(w) => if m.eligibility_mode == ELIGIBILITY_INVITE_KEY {
            &&& w.len() >= 194
            &&& signed_by(voter, w.subrange(0, 97), tx_digest(ledger))
            &&& signed_by(m.organizer_lock_hash, w.subrange(97, 194), tx_digest(ledger))
        } else {
            signed_by(voter, w, tx_digest(ledger))
        },
        None => false,
    }
}

/// The verdict on a ballot submission at the time `now`: schedule, then
/// eligibility, then the revote limit, then the funding input.
pub open spec fn ballot_verdict_at(
    ledger: &Ledger,
    event_id: Seq<u8>,
    voter: Seq<u8>,
    m: MetadataView,
    now: int,
) -> i8 {
    if !in_voting_window(m, now) {
        ERROR_INVALID_TIMING
    } else if m.eligibility_mode > ELIGIBILITY_CURATED_LIST {
        ERROR_INVALID_ARGS
    } else if !voter_eligible(ledger, m, voter) {
        ERROR_VOTER_INELIGIBLE
    } else if m.max_revotes < UNLIMITED_REVOTES && voter_ballots(ledger, event_id, voter) >= m.max_revotes {
        ERROR_REVOTE_LIMIT_EXCEEDED
    } else if !record_present(ledger, Source::Input, EVENTFUND_TYPE, event_id) {
        ERROR_EVENTFUND_MISUSE
    } else {
        SUCCESS
    }
}

/// The signer slot `j` of a metadata record.
pub open spec fn signer_slot(record: Seq<u8>, j: int) -> Seq<u8> {
    record.subrange(114 + 20 * j, 134 + 20 * j)
}

/// `identity` stands in one of the first ten signer slots that the metadata
/// record holds in full.
pub open spec fn signer_authorized(record: Seq<u8>, identity: Seq<u8>) -> bool {
    exists|j: int| 0 <= j < 10 && 134 + 20 * j <= record.len() && #[trigger] signer_slot(record, j) == identity
}

/// The signature block `i` of a release witness.
pub open spec fn signature_block(witness: Seq<u8>, i: int) -> Seq<u8> {
    witness.subrange(1 + 97 * i, 98 + 97 * i)
}

/// The witness holds the signature block `i` in full.
pub open spec fn block_present(witness: Seq<u8>, i: int) -> bool {
    98 + 97 * i <= witness.len()
}

/// The signer of block `i` is authorized and the signature is accepted.
pub open spec fn block_valid(record: Seq<u8>, witness: Seq<u8>, digest: Seq<u8>, i: int) -> bool {
    let block = signature_block(witness, i);
    let identity = identity_hash(block.subrange(0, 33));
    signer_authorized(record, identity) && signed_by(identity, block, digest)
}

/// The verdict on the signature blocks `from..count`, taken in order.
pub open spec fn signatures_verdict(record: Seq<u8>, witness: Seq<u8>, digest: Seq<u8>, from: int, count: int) -> i8
    decreases count - from,
{
    if from >= count {
        SUCCESS
    } else if !block_present(witness, from) {
        ERROR_INSUFFICIENT_SIGNATURES
    } else if !block_valid(record, witness, digest, from) {
        ERROR_INVALID_SIGNATURE
    } else {
        signatures_verdict(record, witness, digest, from + 1, count)
    }
}

/// The verdict on a release before the audit has ended: the timelock, then
/// the signatures, then the anonymity threshold.
pub open spec fn release_verdict_at(
    ledger: &Ledger,
    event_id: Seq<u8>,
    record: Seq<u8>,
    m: MetadataView,
    now: int,
) -> i8 {
    if now < m.voting_end {
        ERROR_TIMELOCK_NOT_EXPIRED
    } else {
        match ledger.witness(0) {
            Some(w) => if w.len() < 1 || w[0] < m.required_signatures {
                ERROR_INSUFFICIENT_SIGNATURES
            } else if signatures_verdict(record, w, tx_digest(ledger), 0, w[0] as int) != SUCCESS {
                signatures_verdict(record, w, tx_digest(ledger), 0, w[0] as int)
            } else if m.k_anonymity_threshold > 0 && event_ballots(ledger, event_id) < m.k_anonymity_threshold {
                ERROR_K_ANONYMITY_VIOLATION
            } else {
                SUCCESS
            },
            None => ERROR_INSUFFICIENT_SIGNATURES,
        }
    }
}

/// The verdict on a result at the time `now`: cleanup once the audit has ended,
/// release before.
pub open spec fn result_verdict_at(
    ledger: &Ledger,
    event_id: Seq<u8>,
    record: Seq<u8>,
    m: MetadataView,
    now: int,
) -> i8 {
    if now >= m.audit_end_time {
        cleanup_verdict(ledger, m)
    } else {
        release_verdict_at(ledger, event_id, record, m, now)
    }
}

/// The verdict on spending the escrow fund of an event.
pub open spec fn eventfund_verdict(ledger: &Ledger, event_id: Seq<u8>) -> i8 {
    match event_metadata(ledger, event_id) {
        Ok(m) => match ledger.current_time() {
            Ok(now) => eventfund_verdict_at(ledger, event_id, m, now as int),
            Err(e) => e,
        },
        Err(e) => e,
    }
}

/// The verdict on consuming the metadata record of an event.
pub open spec fn metadata_verdict(ledger: &Ledger, event_id: Seq<u8>) -> i8 {
    match event_metadata(ledger, event_id) {
        Ok(m) => match ledger.current_time() {
            Ok(now) => metadata_verdict_at(ledger, m, now as int),
            Err(e) => e,
        },
        Err(e) => e,
    }
}

/// The verdict on a ballot of `voter` for an event.
pub open spec fn ballot_verdict(ledger: &Ledger, event_id: Seq<u8>, voter: Seq<u8>) -> i8 {
    match event_metadata(ledger, event_id) {
        Ok(m) => match ledger.current_time() {
            Ok(now) => ballot_verdict_at(ledger, event_id, voter, m, now as int),
            Err(e) => e,
        },
        Err(e) => e,
    }
}

/// The verdict on releasing or consuming the result of an event.
pub open spec fn result_verdict(ledger: &Ledger, event_id: Seq<u8>) -> i8 {
    match metadata_record(ledger, event_id) {
        Some(record) => match parsed_metadata(record) {
            Ok(m) => match ledger.current_time() {
                Ok(now) => result_verdict_at(ledger, event_id, record, m, now as int),
                Err(e) => e,
            },
            Err(e) => e,
        },
        None => ERROR_METADATA_NOT_FOUND,
    }
}

/// Checks the organizer's signature on a cleanup after the audit.
pub fn verify_metadata_cleanup(ledger: &Ledger, metadata: &ParsedMetadata) -> (code: i8)
    ensures
        code == cleanup_verdict(ledger, metadata@),
{
    let witness = match load_witness(ledger, 0) {
        Some(w) => w,
        None => {
            return ERROR_UNAUTHORIZED_WITHDRAWAL;
        },
    };
    let tx_hash = compute_tx_hash(ledger);
    if !verify_signature_by_hash(&metadata.organizer_lock_hash, witness, &tx_hash) {
        return ERROR_UNAUTHORIZED_WITHDRAWAL;
    }
    SUCCESS
}

/// Validates a spend of the escrow fund of an event.
pub fn verify_eventfund(ledger: &Ledger, event_id: &[u8]) -> (code: i8)
    ensures
        code == eventfund_verdict(ledger, event_id@),
{
    let metadata = match load_metadata(ledger, event_id) {
        Ok(m) => m,
        Err(e) => {
            return e;
        },
    };
    let current_time = match load_current_timestamp(ledger) {
        Ok(t) => t,
        Err(e) => {
            return e;
        },
    };
    if current_time >= metadata.voting_start && current_time <= metadata.voting_end {
        if !has_record(ledger, Source::Output, VOTER_TYPE, event_id) {
            return ERROR_EVENTFUND_MISUSE;
        }
        return SUCCESS;
    }
    if current_time >= metadata.audit_end_time {
        return verify_metadata_cleanup(ledger, &metadata);
    }
    ERROR_INVALID_TIMING
}

/// Validates the consumption of the metadata record of an event.
pub fn verify_metadata(ledger: &Ledger, event_id: &[u8]) -> (code: i8)
    ensures
        code == metadata_verdict(ledger, event_id@),
{
    let metadata = match load_metadata(ledger, event_id) {
        Ok(m) => m,
        Err(e) => {
            return e;
        },
    };
    let current_time = match load_current_timestamp(ledger) {
        Ok(t) => t,
        Err(e) => {
            return e;
        },
    };
    if current_time >= metadata.audit_end_time {
        return verify_metadata_cleanup(ledger, &metadata);
    }
    ERROR_METADATA_IMMUTABLE
}

/// Checks the eligibility proof of a voter.
pub fn check_eligibility(ledger: &Ledger, metadata: &ParsedMetadata, voter_hash: &[u8]) -> (ok: bool)
    ensures
        ok == voter_eligible(ledger, metadata@, voter_hash@),
{
    let witness = match load_witness(ledger, 0) {
        Some(w) => w,
        None => {
            return false;
        },
    };
    let tx_hash = compute_tx_hash(ledger);
    if voter_hash.len() != PUBKEY_HASH_SIZE {
        return false;
    }
    let voter = read_array::<20>(voter_hash, 0);
    assert(voter@ == voter_hash@);
    if metadata.eligibility_mode == ELIGIBILITY_INVITE_KEY {
        if witness.len() < 2 * SIGNATURE_BLOCK_SIZE {
            return false;
        }
        if !verify_signature_by_hash(&voter, slice_subrange(witness, 0, 97), &tx_hash) {
            return false;
        }
        verify_signature_by_hash(&metadata.organizer_lock_hash, slice_subrange(witness, 97, 194), &tx_hash)
    } else {
        verify_signature_by_hash(&voter, witness, &tx_hash)
    }
}

/// Validates a ballot submission of a voter for an event.
pub fn verify_voter_ballot(ledger: &Ledger, event_id: &[u8], voter_hash: &[u8]) -> (code: i8)
    ensures
        code == ballot_verdict(ledger, event_id@, voter_hash@),
{
    let metadata = match load_metadata(ledger, event_id) {
        Ok(m) => m,
        Err(e) => {
            return e;
        },
    };
    let current_time = match load_current_timestamp(ledger) {
        Ok(t) => t,
        Err(e) => {
            return e;
        },
    };
    if current_time < metadata.voting_start {
        return ERROR_INVALID_TIMING;
    }
    if current_time > metadata.voting_end {
        return ERROR_INVALID_TIMING;
    }
    if metadata.eligibility_mode > ELIGIBILITY_CURATED_LIST {
        return ERROR_INVALID_ARGS;
    }
    if !check_eligibility(ledger, &metadata, voter_hash) {
        return ERROR_VOTER_INELIGIBLE;
    }
    if metadata.max_revotes < UNLIMITED_REVOTES {
        let previous_count = match count_voter_ballots(ledger, event_id, voter_hash) {
            Ok(c) => c,
            Err(e) => {
                return e;
            },
        };
        if previous_count >= metadata.max_revotes as u32 {
            return ERROR_REVOTE_LIMIT_EXCEEDED;
        }
    }
    if !has_record(ledger, Source::Input, EVENTFUND_TYPE, event_id) {
        return ERROR_EVENTFUND_MISUSE;
    }
    SUCCESS
}

/// Searches the signer slots of a metadata record for an identity hash.
pub fn is_authorized_signer(record: &[u8], identity: &[u8]) -> (authorized: bool)
    ensures
        authorized == signer_authorized(record@, identity@),
{
    let mut j: usize = 0;
    while j < MAX_SIGNERS
        invariant
            j <= 10,
            forall|k: int| 0 <= k < j ==> 134 + 20 * k <= record.len() && signer_slot(record@, k) != identity@,
        decreases 10 - j,
    {
        let offset: usize = SIGNERS_OFFSET + PUBKEY_HASH_SIZE * j;
        if offset + PUBKEY_HASH_SIZE > record.len() {
            return false;
        }
        if bytes_equal(slice_subrange(record, offset, offset + PUBKEY_HASH_SIZE), identity) {
            assert(signer_slot(record@, j as int) == identity@);
            return true;
        }
        j += 1;
    }
    false
}

/// Checks the signature blocks of a release witness in order: each must be
/// there in full, come from an authorized signer and carry an accepted
/// signature.
pub fn check_release_signatures(record: &[u8], witness: &[u8], tx_hash: &[u8; 32], count: u8) -> (code: i8)
    ensures
        code == signatures_verdict(record@, witness@, tx_hash@, 0, count as int),
{
    let mut i: usize = 0;
    while i < count as usize
        invariant
            i <= count,
            signatures_verdict(record@, witness@, tx_hash@, 0, count as int) == signatures_verdict(
                record@,
                witness@,
                tx_hash@,
                i as int,
                count as int,
            ),
        decreases count - i,
    {
        let offset: usize = 1 + i * SIGNATURE_BLOCK_SIZE;
        if offset + SIGNATURE_BLOCK_SIZE > witness.len() {
            return ERROR_INSUFFICIENT_SIGNATURES;
        }
        let block = slice_subrange(witness, offset, offset + SIGNATURE_BLOCK_SIZE);
        let pubkey = read_array::<33>(block, 0);
        let computed_hash = compute_pubkey_hash(&pubkey);
        if !is_authorized_signer(record, computed_hash.as_slice()) {
            return ERROR_INVALID_SIGNATURE;
        }
        if !verify_signature_by_hash(&computed_hash, block, tx_hash) {
            return ERROR_INVALID_SIGNATURE;
        }
        i += 1;
    }
    SUCCESS
}

/// Validates the release of the result of an event, or its cleanup once the
/// audit has ended.
pub fn verify_result_release(ledger: &Ledger, event_id: &[u8]) -> (code: i8)
    ensures
        code == result_verdict(ledger, event_id@),
{
    let record = match load_metadata_record(ledger, event_id) {
        Ok(r) => r,
        Err(e) => {
            return e;
        },
    };
    let metadata = match parse_metadata(record) {
        Ok(m) => m,
        Err(e) => {
            return e;
        },
    };
    let current_time = match load_current_timestamp(ledger) {
        Ok(t) => t,
        Err(e) => {
            return e;
        },
    };
    if current_time >= metadata.audit_end_time {
        return verify_metadata_cleanup(ledger, &metadata);
    }
    if current_time < metadata.voting_end {
        return ERROR_TIMELOCK_NOT_EXPIRED;
    }
    let witness = match load_witness(ledger, 0) {
        Some(w) => w,
        None => {
            return ERROR_INSUFFICIENT_SIGNATURES;
        },
    };
    if witness.len() < 1 {
        return ERROR_INSUFFICIENT_SIGNATURES;
    }
    let sig_count = witness[0];
    if sig_count < metadata.required_signatures {
        return ERROR_INSUFFICIENT_SIGNATURES;
    }
    let tx_hash = compute_tx_hash(ledger);
    let signatures = check_release_signatures(record, witness, &tx_hash, sig_count);
    if signatures != SUCCESS {
        return signatures;
    }
    if metadata.k_anonymity_threshold > 0 {
        let voter_count = count_event_ballots(ledger, event_id);
        if voter_count < metadata.k_anonymity_threshold as u32 {
            return ERROR_K_ANONYMITY_VIOLATION;
        }
    }
    SUCCESS
}

} // verus!
