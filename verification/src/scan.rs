//! The cell enumerator and the metadata resolver.
//!
//! Every scan is linear, starts at index 0 and has a hard upper bound: it ends
//! at the first index at which the host reports no cell, or at the bound,
//! whichever comes first. A record takes part in a scan only if it is long
//! enough to hold every field that the scan compares.

use vstd::prelude::*;
use vstd::slice::slice_subrange;
use crate::codes::{ERROR_METADATA_NOT_FOUND, ERROR_SYSCALL, METADATA_TYPE, VOTER_TYPE};
use crate::codec::{parse_metadata, parsed_metadata, metadata_view, MetadataView, ParsedMetadata};
use crate::bytes::bytes_equal;
use crate::crypto::{blake2b_hash, digest_of};
use crate::ledger::{
    bytes_view, load_cell_by_field, load_cell_dep_by_field, load_input_by_field, Cell, CellField,
    Ledger, Source,
};

verus! {

/// The bound of a scan that looks for one record.
pub const UNIQUE_SCAN_LIMIT: usize = 16;
/// The bound of a scan that counts records.
pub const COUNT_SCAN_LIMIT: usize = 1000;

/// A record is of kind `kind`, belongs to the event `event_id` and, where an
/// owner is asked for, carries that identity hash behind the event identifier.
pub open spec fn record_matches(data: Seq<u8>, kind: u8, event_id: Seq<u8>, owner: Option<Seq<u8>>) -> bool {
    &&& data.len() >= 33
    &&& data[0] == kind
    &&& data.subrange(1, 33) == event_id
    &&& match owner {
        Some(o) => data.len() >= 53 && data.subrange(33, 53) == o,
        None => true,
    }
}

/// The number of cells that a scan with the bound `limit` visits.
pub open spec fn scan_end(cells: Seq<Cell>, limit: int) -> int {
    if cells.len() < limit {
        cells.len() as int
    } else {
        limit
    }
}

/// The index of the first cell in `from..end` whose data is a record of the
/// kind and event asked for.
pub open spec fn first_match(cells: Seq<Cell>, kind: u8, event_id: Seq<u8>, from: int, end: int) -> Option<int>
    decreases end - from,
{
    if from < 0 || from >= end || from >= cells.len() {
        None
    } else if record_matches(cells[from].data@, kind, event_id, None) {
        Some(from)
    } else {
        first_match(cells, kind, event_id, from + 1, end)
    }
}

/// The number of matching records among the first `n` cells.
pub open spec fn count_matches(cells: Seq<Cell>, kind: u8, event_id: Seq<u8>, owner: Option<Seq<u8>>, n: int) -> int
    decreases n,
{
    if n <= 0 {
        0
    } else {
        count_matches(cells, kind, event_id, owner, n - 1) + if n <= cells.len() && record_matches(
            cells[n - 1].data@,
            kind,
            event_id,
            owner,
        ) {
            1int
        } else {
            0int
        }
    }
}

/// `first_match` finds the least matching index, and finds none only where no
/// cell in range matches.
pub proof fn lemma_first_match(cells: Seq<Cell>, kind: u8, event_id: Seq<u8>, from: int, end: int)
    requires
        0 <= from,
    ensures
        match first_match(cells, kind, event_id, from, end) {
            Some(i) => {
                &&& from <= i < end
                &&& i < cells.len()
                &&& record_matches(cells[i].data@, kind, event_id, None)
                &&& forall|j: int| from <= j < i ==> !record_matches(#[trigger] cells[j].data@, kind, event_id, None)
            },
            None => forall|j: int|
                from <= j < end && j < cells.len() ==> !record_matches(#[trigger] cells[j].data@, kind, event_id, None),
        },
    decreases end - from,
{
    if from < end && from < cells.len() && !record_matches(cells[from].data@, kind, event_id, None) {
        lemma_first_match(cells, kind, event_id, from + 1, end);
    }
}

/// The record of the event's metadata: the data of the first matching cell
/// among the first 16 cell dependencies.
pub open spec fn metadata_record(ledger: &Ledger, event_id: Seq<u8>) -> Option<Seq<u8>> {
    match first_match(ledger.cell_deps@, METADATA_TYPE, event_id, 0, 16) {
        Some(i) => Some(ledger.cell_deps@[i].data@),
        None => None,
    }
}

/// The event's metadata as the resolver gives it.
pub open spec fn event_metadata(ledger: &Ledger, event_id: Seq<u8>) -> Result<MetadataView, i8> {
    match metadata_record(ledger, event_id) {
        Some(data) => parsed_metadata(data),
        None => Err(ERROR_METADATA_NOT_FOUND),
    }
}

/// Some cell among the first 16 of a collection is a record of the kind and
/// event asked for.
pub open spec fn record_present(ledger: &Ledger, source: Source, kind: u8, event_id: Seq<u8>) -> bool {
    first_match(ledger.cells(source), kind, event_id, 0, 16) is Some
}

/// The number of ballots of one voter for an event among the first 1000 inputs.
pub open spec fn voter_ballots(ledger: &Ledger, event_id: Seq<u8>, voter: Seq<u8>) -> int {
    count_matches(ledger.inputs@, VOTER_TYPE, event_id, Some(voter), scan_end(ledger.inputs@, 1000))
}

/// The number of ballots for an event among the first 1000 inputs.
pub open spec fn event_ballots(ledger: &Ledger, event_id: Seq<u8>) -> int {
    count_matches(ledger.inputs@, VOTER_TYPE, event_id, None, scan_end(ledger.inputs@, 1000))
}

/// The digest that signatures are made over: the digest of the first input's
/// lock hash, and of the empty string where there is no input.
pub open spec fn tx_digest(ledger: &Ledger) -> Seq<u8> {
    match ledger.record(Source::Input, 0, CellField::LockHash) {
        Some(lock_hash) => digest_of(lock_hash),
        None => digest_of(Seq::empty()),
    }
}

/// Tells whether `data` is a record of the kind, event and owner asked for.
pub fn matches_record(data: &[u8], kind: u8, event_id: &[u8], owner: Option<&[u8]>) -> (matched: bool)
    ensures
        matched == record_matches(data@, kind, event_id@, bytes_view(owner)),
{
    if data.len() < 33 || data[0] != kind {
        return false;
    }
    if !bytes_equal(slice_subrange(data, 1, 33), event_id) {
        return false;
    }
    match owner {
        Some(o) => data.len() >= 53 && bytes_equal(slice_subrange(data, 33, 53), o),
        None => true,
    }
}

/// Scans up to `limit` cells of a collection for the first record of a kind
/// and event.
fn find_record(ledger: &Ledger, source: Source, kind: u8, event_id: &[u8], limit: usize) -> (found: Option<usize>)
    ensures
        match found {
            Some(i) => first_match(ledger.cells(source), kind, event_id@, 0, limit as int) == Some(i as int),
            None => first_match(ledger.cells(source), kind, event_id@, 0, limit as int) is None,
        },
{
    let mut i: usize = 0;
    while i < limit
        invariant
            i <= limit,
            first_match(ledger.cells(source), kind, event_id@, 0, limit as int) == first_match(
                ledger.cells(source),
                kind,
                event_id@,
                i as int,
                limit as int,
            ),
        decreases limit - i,
    {
        match load_cell_by_field(ledger, i, source, CellField::Data) {
            None => {
                return None;
            },
            Some(data) => {
                if matches_record(data, kind, event_id, None) {
                    return Some(i);
                }
            },
        }
        i += 1;
    }
    None
}

/// Counts the matching records among up to `limit` cells of a collection.
fn count_records(
    ledger: &Ledger,
    source: Source,
    kind: u8,
    event_id: &[u8],
    owner: Option<&[u8]>,
    limit: usize,
) -> (count: u32)
    requires
        limit <= u32::MAX,
    ensures
        count == count_matches(
            ledger.cells(source),
            kind,
            event_id@,
            bytes_view(owner),
            scan_end(ledger.cells(source), limit as int),
        ),
        count <= limit,
{
    let mut count: u32 = 0;
    let mut i: usize = 0;
    while i < limit
        invariant
            i <= limit <= u32::MAX,
            i <= ledger.cells(source).len(),
            count <= i,
            count == count_matches(ledger.cells(source), kind, event_id@, bytes_view(owner), i as int),
        decreases limit - i,
    {
        match load_cell_by_field(ledger, i, source, CellField::Data) {
            None => {
                return count;
            },
            Some(data) => {
                if matches_record(data, kind, event_id, owner) {
                    count += 1;
                }
            },
        }
        i += 1;
    }
    count
}

/// Tells whether a record of a kind and event stands among the first 16 cells
/// of a collection.
pub fn has_record(ledger: &Ledger, source: Source, kind: u8, event_id: &[u8]) -> (present: bool)
    ensures
        present == record_present(ledger, source, kind, event_id@),
{
    find_record(ledger, source, kind, event_id, UNIQUE_SCAN_LIMIT).is_some()
}

/// Finds the metadata record of an event among the cell dependencies.
pub fn find_metadata_cell(ledger: &Ledger, event_id: &[u8]) -> (found: Result<usize, i8>)
    ensures
        match found {
            Ok(i) => first_match(ledger.cell_deps@, METADATA_TYPE, event_id@, 0, 16) == Some(i as int),
            Err(e) => e == ERROR_METADATA_NOT_FOUND && first_match(
                ledger.cell_deps@,
                METADATA_TYPE,
                event_id@,
                0,
                16,
            ) is None,
        },
{
    match find_record(ledger, Source::CellDep, METADATA_TYPE, event_id, UNIQUE_SCAN_LIMIT) {
        Some(i) => Ok(i),
        None => Err(ERROR_METADATA_NOT_FOUND),
    }
}

/// Finds the metadata record of an event and hands out its bytes.
pub fn load_metadata_record<'a>(ledger: &'a Ledger, event_id: &[u8]) -> (found: Result<&'a [u8], i8>)
    ensures
        match found {
            Ok(data) => metadata_record(ledger, event_id@) == Some(data@),
            Err(e) => e == ERROR_METADATA_NOT_FOUND && metadata_record(ledger, event_id@) is None,
        },
{
    let index = match find_metadata_cell(ledger, event_id) {
        Ok(i) => i,
        Err(e) => {
            return Err(e);
        },
    };
    proof {
        lemma_first_match(ledger.cell_deps@, METADATA_TYPE, event_id@, 0, 16);
    }
    match load_cell_dep_by_field(ledger, index, CellField::Data) {
        Some(data) => Ok(data),
        None => Err(ERROR_SYSCALL),
    }
}

/// Finds and parses the metadata of an event.
pub fn load_metadata(ledger: &Ledger, event_id: &[u8]) -> (loaded: Result<ParsedMetadata, i8>)
    ensures
        metadata_view(loaded) == event_metadata(ledger, event_id@),
{
    match load_metadata_record(ledger, event_id) {
        Ok(data) => parse_metadata(data),
        Err(e) => Err(e),
    }
}

/// Counts the ballots that a voter already has for an event among the inputs.
pub fn count_voter_ballots(ledger: &Ledger, event_id: &[u8], voter_hash: &[u8]) -> (count: Result<u32, i8>)
    ensures
        count is Ok,
        count->Ok_0 == voter_ballots(ledger, event_id@, voter_hash@),
        count->Ok_0 <= COUNT_SCAN_LIMIT,
{
    Ok(count_records(ledger, Source::Input, VOTER_TYPE, event_id, Some(voter_hash), COUNT_SCAN_LIMIT))
}

/// Counts the ballots for an event among the inputs.
pub fn count_event_ballots(ledger: &Ledger, event_id: &[u8]) -> (count: u32)
    ensures
        count == event_ballots(ledger, event_id@),
        count <= COUNT_SCAN_LIMIT,
{
    count_records(ledger, Source::Input, VOTER_TYPE, event_id, None, COUNT_SCAN_LIMIT)
}

/// Computes the digest that signatures are made over.
pub fn compute_tx_hash(ledger: &Ledger) -> (hash: [u8; 32])
    ensures
        hash@ == tx_digest(ledger),
{
    let mut hash = [0u8; 32];
    match load_input_by_field(ledger, 0, CellField::LockHash) {
        Some(lock_hash) => {
            blake2b_hash(lock_hash, &mut hash);
        },
        None => {
            assert(hash@ =~= digest_of(Seq::empty()));
        },
    }
    hash
}

} // verus!
