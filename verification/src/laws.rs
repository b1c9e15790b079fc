//! What holds of the verdicts for every snapshot.
//!
//! Each law speaks of a snapshot whose metadata resolves to `m` and whose
//! header gives the time `now`, and relates the verdict to the conditions
//! that the protocol names.

use vstd::prelude::*;
use crate::codec::MetadataView;
use crate::codes::{
    ELIGIBILITY_CURATED_LIST, ERROR_EVENTFUND_MISUSE, ERROR_INSUFFICIENT_SIGNATURES,
    ERROR_INVALID_ARGS, ERROR_INVALID_SIGNATURE, ERROR_INVALID_TIMING, ERROR_K_ANONYMITY_VIOLATION,
    ERROR_METADATA_IMMUTABLE, ERROR_REVOTE_LIMIT_EXCEEDED, ERROR_TIMELOCK_NOT_EXPIRED,
    ERROR_UNAUTHORIZED_WITHDRAWAL, EVENTFUND_TYPE, SUCCESS, UNLIMITED_REVOTES, VOTER_TYPE,
};
use crate::dispatch::entry_verdict;
use crate::ledger::{Ledger, Source};
use crate::scan::{
    event_ballots, event_metadata, lemma_first_match, metadata_record, record_matches,
    record_present, tx_digest, voter_ballots,
};
use crate::validators::{
    ballot_verdict, block_present, block_valid, eventfund_verdict, in_voting_window,
    metadata_verdict, result_verdict, signatures_verdict, voter_eligible, witness_signed_by,
};

verus! {

/// The snapshot resolves the event's metadata to `m` and gives the time `now`.
pub open spec fn resolves(ledger: &Ledger, event_id: Seq<u8>, m: MetadataView, now: u64) -> bool {
    event_metadata(ledger, event_id) == Ok::<MetadataView, i8>(m) && ledger.current_time() == Ok::<u64, i8>(now)
}

/// A ballot of the event stands among the first 16 outputs.
pub open spec fn ballot_output_exists(ledger: &Ledger, event_id: Seq<u8>) -> bool {
    exists|i: int|
        0 <= i < 16 && i < ledger.outputs@.len() && record_matches(
            #[trigger] ledger.outputs@[i].data@,
            VOTER_TYPE,
            event_id,
            None,
        )
}

/// The signature block `i` of a release witness is there in full, comes from
/// an authorized signer and is accepted.
pub open spec fn block_checked(record: Seq<u8>, witness: Seq<u8>, digest: Seq<u8>, i: int) -> bool {
    block_present(witness, i) && block_valid(record, witness, digest, i)
}

/// Each of the signature blocks `from..count` passes its checks.
pub open spec fn blocks_valid_from(record: Seq<u8>, witness: Seq<u8>, digest: Seq<u8>, from: int, count: int) -> bool {
    forall|i: int| from <= i < count ==> #[trigger] block_checked(record, witness, digest, i)
}

/// The release witness announces at least the required number of signatures.
pub open spec fn enough_signatures(ledger: &Ledger, m: MetadataView) -> bool {
    match ledger.witness(0) {
        Some(w) => w.len() >= 1 && w[0] >= m.required_signatures,
        None => false,
    }
}

/// Every announced signature of the release witness is valid.
pub open spec fn signatures_valid(ledger: &Ledger, record: Seq<u8>) -> bool {
    match ledger.witness(0) {
        Some(w) => w.len() >= 1 && blocks_valid_from(record, w, tx_digest(ledger), 0, w[0] as int),
        None => false,
    }
}

/// Enough voters took part, or the event sets no anonymity threshold.
pub open spec fn anonymity_kept(ledger: &Ledger, event_id: Seq<u8>, m: MetadataView) -> bool {
    m.k_anonymity_threshold == 0 || event_ballots(ledger, event_id) >= m.k_anonymity_threshold
}

/// The error that the signature block `i` gives where it fails its checks:
/// too few signatures where the block is not there in full, an invalid
/// signature otherwise.
pub open spec fn block_failure(witness: Seq<u8>, i: int) -> i8 {
    if !block_present(witness, i) {
        ERROR_INSUFFICIENT_SIGNATURES
    } else {
        ERROR_INVALID_SIGNATURE
    }
}

/// Block `i` is the first of the signature blocks `from..count` that fails.
pub open spec fn fails_first_at(
    record: Seq<u8>,
    witness: Seq<u8>,
    digest: Seq<u8>,
    from: int,
    count: int,
    i: int,
) -> bool {
    &&& from <= i < count
    &&& blocks_valid_from(record, witness, digest, from, i)
    &&& !block_checked(record, witness, digest, i)
}

/// The signature blocks from `from` on pass exactly when each of them is
/// present and valid; otherwise the first block that fails decides the error.
pub proof fn lemma_signatures_verdict(record: Seq<u8>, witness: Seq<u8>, digest: Seq<u8>, from: int, count: int)
    requires
        0 <= from,
    ensures
        signatures_verdict(record, witness, digest, from, count) == SUCCESS <==> blocks_valid_from(
            record,
            witness,
            digest,
            from,
            count,
        ),
        signatures_verdict(record, witness, digest, from, count) != SUCCESS ==> exists|i: int|
            #[trigger] fails_first_at(record, witness, digest, from, count, i) && signatures_verdict(
                record,
                witness,
                digest,
                from,
                count,
            ) == block_failure(witness, i),
    decreases count - from,
{
    if from < count {
        lemma_signatures_verdict(record, witness, digest, from + 1, count);
        if block_checked(record, witness, digest, from) {
            if blocks_valid_from(record, witness, digest, from + 1, count) {
                assert forall|i: int| from <= i < count implies #[trigger] block_checked(
                    record,
                    witness,
                    digest,
                    i,
                ) by {
                    if i > from {
                        assert(from + 1 <= i);
                    }
                }
            } else {
                let i = choose|i: int|
                    #[trigger] fails_first_at(record, witness, digest, from + 1, count, i) && signatures_verdict(
                        record,
                        witness,
                        digest,
                        from + 1,
                        count,
                    ) == block_failure(witness, i);
                assert forall|k: int| from <= k < i implies #[trigger] block_checked(
                    record,
                    witness,
                    digest,
                    k,
                ) by {
                    if k > from {
                        assert(from + 1 <= k);
                    }
                }
                assert(fails_first_at(record, witness, digest, from, count, i));
            }
        } else {
            assert(fails_first_at(record, witness, digest, from, count, from));
        }
    }
}

/// While voting is open, a spend of the escrow fund succeeds if and only if a
/// ballot of the same event stands among the outputs; without one it is a
/// misuse of the fund.
pub proof fn law_fund_pays_for_ballots(ledger: &Ledger, event_id: Seq<u8>, m: MetadataView, now: u64)
    requires
        resolves(ledger, event_id, m, now),
        in_voting_window(m, now as int),
    ensures
        eventfund_verdict(ledger, event_id) == SUCCESS <==> ballot_output_exists(ledger, event_id),
        !ballot_output_exists(ledger, event_id) ==> eventfund_verdict(ledger, event_id)
            == ERROR_EVENTFUND_MISUSE,
{
    lemma_first_match(ledger.outputs@, VOTER_TYPE, event_id, 0, 16);
}

/// Once the audit has ended and voting is not open, a spend of the escrow fund
/// succeeds if and only if the organizer signed the transaction; otherwise it
/// is an unauthorized withdrawal.
pub proof fn law_fund_withdrawal_after_audit(ledger: &Ledger, event_id: Seq<u8>, m: MetadataView, now: u64)
    requires
        resolves(ledger, event_id, m, now),
        now >= m.audit_end_time,
        !in_voting_window(m, now as int),
    ensures
        eventfund_verdict(ledger, event_id) == SUCCESS <==> witness_signed_by(ledger, m.organizer_lock_hash),
        !witness_signed_by(ledger, m.organizer_lock_hash) ==> eventfund_verdict(ledger, event_id)
            == ERROR_UNAUTHORIZED_WITHDRAWAL,
{
}

/// Once the audit has ended, the metadata record and the result are consumed
/// successfully if and only if the organizer signed the transaction;
/// otherwise the consumption is an unauthorized withdrawal.
pub proof fn law_cleanup_after_audit(ledger: &Ledger, event_id: Seq<u8>, m: MetadataView, now: u64)
    requires
        resolves(ledger, event_id, m, now),
        now >= m.audit_end_time,
    ensures
        metadata_verdict(ledger, event_id) == SUCCESS <==> witness_signed_by(ledger, m.organizer_lock_hash),
        result_verdict(ledger, event_id) == SUCCESS <==> witness_signed_by(ledger, m.organizer_lock_hash),
        !witness_signed_by(ledger, m.organizer_lock_hash) ==> {
            &&& metadata_verdict(ledger, event_id) == ERROR_UNAUTHORIZED_WITHDRAWAL
            &&& result_verdict(ledger, event_id) == ERROR_UNAUTHORIZED_WITHDRAWAL
        },
{
}

/// Between the end of voting and the end of the audit the escrow fund is
/// frozen: every spend fails on timing.
pub proof fn law_fund_frozen_during_audit(ledger: &Ledger, event_id: Seq<u8>, m: MetadataView, now: u64)
    requires
        resolves(ledger, event_id, m, now),
        m.voting_end < now < m.audit_end_time,
    ensures
        eventfund_verdict(ledger, event_id) == ERROR_INVALID_TIMING,
{
}

/// A ballot is accepted if and only if it passes all four stages: it comes
/// in the voting window, the voter proves eligibility in a known mode, the
/// revote limit is not reached, and the escrow fund of the event is among the
/// inputs.
pub proof fn law_ballot_accepted(ledger: &Ledger, event_id: Seq<u8>, voter: Seq<u8>, m: MetadataView, now: u64)
    requires
        resolves(ledger, event_id, m, now),
    ensures
        ballot_verdict(ledger, event_id, voter) == SUCCESS <==> {
            &&& in_voting_window(m, now as int)
            &&& m.eligibility_mode <= ELIGIBILITY_CURATED_LIST
            &&& voter_eligible(ledger, m, voter)
            &&& (m.max_revotes == UNLIMITED_REVOTES || voter_ballots(ledger, event_id, voter) < m.max_revotes)
            &&& record_present(ledger, Source::Input, EVENTFUND_TYPE, event_id)
        },
{
}

/// With a revote limit below 255, a ballot of an eligible voter in the voting
/// window fails on the limit once the voter has as many ballots among the
/// inputs as the limit says, and succeeds below it where the fund pays.
pub proof fn law_revote_limit(ledger: &Ledger, event_id: Seq<u8>, voter: Seq<u8>, m: MetadataView, now: u64)
    requires
        resolves(ledger, event_id, m, now),
        in_voting_window(m, now as int),
        m.eligibility_mode <= ELIGIBILITY_CURATED_LIST,
        voter_eligible(ledger, m, voter),
        m.max_revotes < UNLIMITED_REVOTES,
    ensures
        voter_ballots(ledger, event_id, voter) >= m.max_revotes ==> ballot_verdict(ledger, event_id, voter)
            == ERROR_REVOTE_LIMIT_EXCEEDED,
        voter_ballots(ledger, event_id, voter) < m.max_revotes && record_present(
            ledger,
            Source::Input,
            EVENTFUND_TYPE,
            event_id,
        ) ==> ballot_verdict(ledger, event_id, voter) == SUCCESS,
{
}

/// Before the audit has ended, a result is released if and only if voting has
/// ended, enough signatures are announced, every announced signature is
/// present, authorized and accepted, and the anonymity threshold is met. The
/// first of these that fails, in this order, decides the error.
pub proof fn law_result_release(ledger: &Ledger, event_id: Seq<u8>, m: MetadataView, now: u64)
    requires
        resolves(ledger, event_id, m, now),
        now < m.audit_end_time,
    ensures
        result_verdict(ledger, event_id) == SUCCESS <==> {
            &&& now >= m.voting_end
            &&& enough_signatures(ledger, m)
            &&& signatures_valid(ledger, metadata_record(ledger, event_id).unwrap())
            &&& anonymity_kept(ledger, event_id, m)
        },
        now < m.voting_end ==> result_verdict(ledger, event_id) == ERROR_TIMELOCK_NOT_EXPIRED,
        now >= m.voting_end && !enough_signatures(ledger, m) ==> result_verdict(ledger, event_id)
            == ERROR_INSUFFICIENT_SIGNATURES,
        now >= m.voting_end && enough_signatures(ledger, m) && !signatures_valid(
            ledger,
            metadata_record(ledger, event_id).unwrap(),
        ) ==> exists|i: int|
            #[trigger] fails_first_at(
                metadata_record(ledger, event_id).unwrap(),
                ledger.witness(0).unwrap(),
                tx_digest(ledger),
                0,
                ledger.witness(0).unwrap()[0] as int,
                i,
            ) && result_verdict(ledger, event_id) == block_failure(ledger.witness(0).unwrap(), i),
        now >= m.voting_end && enough_signatures(ledger, m) && signatures_valid(
            ledger,
            metadata_record(ledger, event_id).unwrap(),
        ) && !anonymity_kept(ledger, event_id, m) ==> result_verdict(ledger, event_id)
            == ERROR_K_ANONYMITY_VIOLATION,
{
    let record = metadata_record(ledger, event_id).unwrap();
    match ledger.witness(0) {
        Some(w) => {
            if w.len() >= 1 {
                lemma_signatures_verdict(record, w, tx_digest(ledger), 0, w[0] as int);
            }
        },
        None => {},
    }
}

/// Before the audit has ended the metadata record cannot be consumed,
/// whatever the witnesses hold.
pub proof fn law_metadata_immutable(ledger: &Ledger, event_id: Seq<u8>, m: MetadataView, now: u64)
    requires
        resolves(ledger, event_id, m, now),
        now < m.audit_end_time,
    ensures
        metadata_verdict(ledger, event_id) == ERROR_METADATA_IMMUTABLE,
{
}

/// An argument record shorter than 33 bytes is refused, whatever its first
/// byte says.
pub proof fn law_short_args_refused(ledger: &Ledger)
    requires
        ledger.args is Some,
        ledger.args.unwrap()@.len() < 33,
    ensures
        entry_verdict(ledger) == ERROR_INVALID_ARGS,
{
}

} // verus!
