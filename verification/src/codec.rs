//! The byte layouts of the protocol: an event's metadata record, a voter's
//! ballot, a result and the script's argument record.
//!
//! Every record starts with its kind tag and the 32 bytes of the event
//! identifier. Integers are little-endian. A metadata record has a fixed
//! prefix of 82 bytes; the identity hashes of the authorized release signers
//! start at offset 114. A ballot is 321 bytes long. A result has a fixed prefix
//! of 38 bytes, followed by its tallies and signatures. An argument record is
//! a kind tag, the event identifier and, optionally, the 20 bytes of a voter's
//! identity hash.
//!
//! A parser reads the fields at their offsets and refuses a record that ends
//! before the last of them. It does not look at the kind tag of a cell's
//! record: the scan that picked the record did.

use vstd::prelude::*;
use crate::bytes::{
    le_u16_at, le_u32_at, le_u64_at, read_array, read_u16_le, read_u32_le, read_u64_le,
};
use crate::codes::{ERROR_ENCODING, ERROR_INVALID_ARGS, RESULT_TYPE};

verus! {

/// Length of the fixed prefix of a metadata record.
pub const METADATA_FIXED_SIZE: usize = 82;
/// Offset of the first authorized signer in a metadata record.
pub const SIGNERS_OFFSET: usize = 114;
/// The number of signer slots that are searched.
pub const MAX_SIGNERS: usize = 10;
/// Length of a ballot record.
pub const VOTER_BALLOT_SIZE: usize = 321;
/// Length of the fixed prefix of a result record.
pub const RESULT_FIXED_SIZE: usize = 38;
/// Length of the shortest argument record.
pub const MIN_ARGS_SIZE: usize = 33;
/// Length of an argument record that names a voter.
pub const VOTER_ARGS_SIZE: usize = 53;

/// The fixed fields of an event's metadata.
///
/// The three timestamps are meant to be in order, `voting_start` no later
/// than `voting_end` and that no later than `audit_end_time`. Parsing does not
/// check this: whoever creates the record is responsible for it, and every
/// verdict is defined for records that break it.
#[derive(Clone, Copy, Debug)]
pub struct ParsedMetadata {
    pub event_id: [u8; 32],
    pub organizer_lock_hash: [u8; 20],
    pub voting_start: u64,
    pub voting_end: u64,
    pub audit_end_time: u64,
    pub eligibility_mode: u8,
    pub max_revotes: u8,
    pub required_signatures: u8,
    pub k_anonymity_threshold: u16,
}

/// The mathematical value of a [`ParsedMetadata`].
pub ghost struct MetadataView {
    pub event_id: Seq<u8>,
    pub organizer_lock_hash: Seq<u8>,
    pub voting_start: int,
    pub voting_end: int,
    pub audit_end_time: int,
    pub eligibility_mode: u8,
    pub max_revotes: u8,
    pub required_signatures: u8,
    pub k_anonymity_threshold: int,
}

impl View for ParsedMetadata {
    type V = MetadataView;

    open spec fn view(&self) -> MetadataView {
        MetadataView {
            event_id: self.event_id@,
            organizer_lock_hash: self.organizer_lock_hash@,
            voting_start: self.voting_start as int,
            voting_end: self.voting_end as int,
            audit_end_time: self.audit_end_time as int,
            eligibility_mode: self.eligibility_mode,
            max_revotes: self.max_revotes,
            required_signatures: self.required_signatures,
            k_anonymity_threshold: self.k_anonymity_threshold as int,
        }
    }
}

/// What a metadata record of at least 82 bytes says.
pub open spec fn metadata_fields(data: Seq<u8>) -> MetadataView {
    MetadataView {
        event_id: data.subrange(1, 33),
        organizer_lock_hash: data.subrange(33, 53),
        voting_start: le_u64_at(data, 53),
        voting_end: le_u64_at(data, 61),
        audit_end_time: le_u64_at(data, 69),
        eligibility_mode: data[77],
        max_revotes: data[78],
        required_signatures: data[79],
        k_anonymity_threshold: le_u16_at(data, 80),
    }
}

/// What parsing a metadata record gives: its fields, or the encoding error
/// where the record is shorter than the fixed prefix.
pub open spec fn parsed_metadata(data: Seq<u8>) -> Result<MetadataView, i8> {
    if data.len() < 82 {
        Err(ERROR_ENCODING)
    } else {
        Ok(metadata_fields(data))
    }
}

/// The view of a parsing result.
pub open spec fn metadata_view(parsed: Result<ParsedMetadata, i8>) -> Result<MetadataView, i8> {
    match parsed {
        Ok(m) => Ok(m@),
        Err(e) => Err(e),
    }
}

/// Parses the fixed prefix of a metadata record.
pub fn parse_metadata(data: &[u8]) -> (parsed: Result<ParsedMetadata, i8>)
    ensures
        metadata_view(parsed) == parsed_metadata(data@),
{
    if data.len() < METADATA_FIXED_SIZE {
        return Err(ERROR_ENCODING);
    }
    Ok(
        ParsedMetadata {
            event_id: read_array::<32>(data, 1),
            organizer_lock_hash: read_array::<20>(data, 33),
            voting_start: read_u64_le(data, 53),
            voting_end: read_u64_le(data, 61),
            audit_end_time: read_u64_le(data, 69),
            eligibility_mode: data[77],
            max_revotes: data[78],
            required_signatures: data[79],
            k_anonymity_threshold: read_u16_le(data, 80),
        },
    )
}

/// One ballot of a voter.
#[derive(Clone, Copy, Debug)]
pub struct VoterBallot {
    pub event_id: [u8; 32],
    pub voter_pubkey_hash: [u8; 20],
    pub sequence_number: u32,
    pub timestamp: u64,
    pub encrypted_ballot: [u8; 256],
}

/// The mathematical value of a [`VoterBallot`].
pub ghost struct VoterBallotView {
    pub event_id: Seq<u8>,
    pub voter_pubkey_hash: Seq<u8>,
    pub sequence_number: int,
    pub timestamp: int,
    pub encrypted_ballot: Seq<u8>,
}

impl View for VoterBallot {
    type V = VoterBallotView;

    open spec fn view(&self) -> VoterBallotView {
        VoterBallotView {
            event_id: self.event_id@,
            voter_pubkey_hash: self.voter_pubkey_hash@,
            sequence_number: self.sequence_number as int,
            timestamp: self.timestamp as int,
            encrypted_ballot: self.encrypted_ballot@,
        }
    }
}

/// What parsing a ballot record gives: its fields, or the encoding error
/// where the record is shorter than 321 bytes.
pub open spec fn parsed_voter_ballot(data: Seq<u8>) -> Result<VoterBallotView, i8> {
    if data.len() < 321 {
        Err(ERROR_ENCODING)
    } else {
        Ok(
            VoterBallotView {
                event_id: data.subrange(1, 33),
                voter_pubkey_hash: data.subrange(33, 53),
                sequence_number: le_u32_at(data, 53),
                timestamp: le_u64_at(data, 57),
                encrypted_ballot: data.subrange(65, 321),
            },
        )
    }
}

/// The view of a parsing result.
pub open spec fn voter_ballot_view(parsed: Result<VoterBallot, i8>) -> Result<VoterBallotView, i8> {
    match parsed {
        Ok(b) => Ok(b@),
        Err(e) => Err(e),
    }
}

/// Parses a ballot record.
pub fn parse_voter_ballot(data: &[u8]) -> (parsed: Result<VoterBallot, i8>)
    ensures
        voter_ballot_view(parsed) == parsed_voter_ballot(data@),
{
    if data.len() < VOTER_BALLOT_SIZE {
        return Err(ERROR_ENCODING);
    }
    Ok(
        VoterBallot {
            event_id: read_array::<32>(data, 1),
            voter_pubkey_hash: read_array::<20>(data, 33),
            sequence_number: read_u32_le(data, 53),
            timestamp: read_u64_le(data, 57),
            encrypted_ballot: read_array::<256>(data, 65),
        },
    )
}

/// The fixed fields of a result.
#[derive(Clone, Copy, Debug)]
pub struct ResultCell {
    pub event_id: [u8; 32],
    pub total_votes: u32,
    pub release_signatures_count: u8,
}

/// The mathematical value of a [`ResultCell`].
pub ghost struct ResultCellView {
    pub event_id: Seq<u8>,
    pub total_votes: int,
    pub release_signatures_count: u8,
}

impl View for ResultCell {
    type V = ResultCellView;

    open spec fn view(&self) -> ResultCellView {
        ResultCellView {
            event_id: self.event_id@,
            total_votes: self.total_votes as int,
            release_signatures_count: self.release_signatures_count,
        }
    }
}

/// What parsing a result record gives: its fixed fields, or the encoding
/// error where the record is shorter than 38 bytes.
pub open spec fn parsed_result_cell(data: Seq<u8>) -> Result<ResultCellView, i8> {
    if data.len() < 38 {
        Err(ERROR_ENCODING)
    } else {
        Ok(
            ResultCellView {
                event_id: data.subrange(1, 33),
                total_votes: le_u32_at(data, 33),
                release_signatures_count: data[37],
            },
        )
    }
}

/// The view of a parsing result.
pub open spec fn result_cell_view(parsed: Result<ResultCell, i8>) -> Result<ResultCellView, i8> {
    match parsed {
        Ok(r) => Ok(r@),
        Err(e) => Err(e),
    }
}

/// Parses the fixed prefix of a result record.
pub fn parse_result_cell(data: &[u8]) -> (parsed: Result<ResultCell, i8>)
    ensures
        result_cell_view(parsed) == parsed_result_cell(data@),
{
    if data.len() < RESULT_FIXED_SIZE {
        return Err(ERROR_ENCODING);
    }
    Ok(
        ResultCell {
            event_id: read_array::<32>(data, 1),
            total_votes: read_u32_le(data, 33),
            release_signatures_count: data[37],
        },
    )
}

/// The fields of the script's argument record.
#[derive(Clone, Copy, Debug)]
pub struct ScriptArgs {
    pub kind: u8,
    pub event_id: [u8; 32],
    pub voter_identity: [u8; 20],
}

/// The mathematical value of a [`ScriptArgs`].
pub ghost struct ScriptArgsView {
    pub kind: u8,
    pub event_id: Seq<u8>,
    pub voter_identity: Seq<u8>,
}

impl View for ScriptArgs {
    type V = ScriptArgsView;

    open spec fn view(&self) -> ScriptArgsView {
        ScriptArgsView { kind: self.kind, event_id: self.event_id@, voter_identity: self.voter_identity@ }
    }
}

/// The voter identity of an argument record: bytes 33 to 53, or twenty zero
/// bytes where the record ends before them.
pub open spec fn args_voter(args: Seq<u8>) -> Seq<u8> {
    if args.len() >= 53 {
        args.subrange(33, 53)
    } else {
        Seq::new(20, |i: int| 0u8)
    }
}

/// What parsing an argument record gives: its fields, or the argument error
/// where the record is shorter than 33 bytes or its tag names no kind.
pub open spec fn parsed_script_args(args: Seq<u8>) -> Result<ScriptArgsView, i8> {
    if args.len() < 33 || args[0] > RESULT_TYPE {
        Err(ERROR_INVALID_ARGS)
    } else {
        Ok(ScriptArgsView { kind: args[0], event_id: args.subrange(1, 33), voter_identity: args_voter(args) })
    }
}

/// The view of a parsing result.
pub open spec fn script_args_view(parsed: Result<ScriptArgs, i8>) -> Result<ScriptArgsView, i8> {
    match parsed {
        Ok(a) => Ok(a@),
        Err(e) => Err(e),
    }
}

/// Parses the script's argument record.
pub fn parse_script_args(args: &[u8]) -> (parsed: Result<ScriptArgs, i8>)
    ensures
        script_args_view(parsed) == parsed_script_args(args@),
{
    if args.len() < MIN_ARGS_SIZE || args[0] > RESULT_TYPE {
        return Err(ERROR_INVALID_ARGS);
    }
    let voter_identity = if args.len() >= VOTER_ARGS_SIZE {
        read_array::<20>(args, 33)
    } else {
        let absent = [0u8; 20];
        assert(absent@ =~= args_voter(args@));
        absent
    };
    Ok(ScriptArgs { kind: args[0], event_id: read_array::<32>(args, 1), voter_identity })
}

} // verus!
