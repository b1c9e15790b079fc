//! The ledger query facade: a read-only snapshot of one transaction.
//!
//! The host assembles the snapshot before validation starts. Every query is a
//! lookup in it; a lookup past the end of a collection answers `None`, which a
//! scan takes as the end of the collection and not as a fault.

use vstd::prelude::*;
use crate::bytes::{le_u64_at, read_u64_le};
use crate::codes::{ERROR_ENCODING, ERROR_SYSCALL, TIMESTAMP_SIZE};

verus! {

/// The collection of a transaction that a cell is looked up in.
#[derive(Clone, Copy, Debug, PartialEq, Eq, Structural)]
pub enum Source {
    Input,
    Output,
    CellDep,
}

/// The part of a cell that a query asks for.
#[derive(Clone, Copy, Debug, PartialEq, Eq, Structural)]
pub enum CellField {
    Capacity,
    Data,
    Lock,
    LockHash,
    Kind,
}

/// One cell of the ledger, each field as the bytes that the host reports.
#[derive(Clone, Debug)]
pub struct Cell {
    pub capacity: Vec<u8>,
    pub data: Vec<u8>,
    pub lock: Vec<u8>,
    pub lock_hash: Vec<u8>,
    pub kind: Vec<u8>,
}

/// Everything of a transaction that validation reads.
#[derive(Clone, Debug)]
pub struct Ledger {
    /// The script's argument record; `None` where the host could not give it.
    pub args: Option<Vec<u8>>,
    pub inputs: Vec<Cell>,
    pub outputs: Vec<Cell>,
    pub cell_deps: Vec<Cell>,
    /// The witnesses, by input index.
    pub witnesses: Vec<Vec<u8>>,
    /// The timestamp field of the header of the first input, as the host
    /// reports it; `None` where the host could not give it.
    pub header_timestamp: Option<Vec<u8>>,
}

impl Cell {
    /// The bytes of one field.
    pub open spec fn field(&self, field: CellField) -> Seq<u8> {
        match field {
            CellField::Capacity => self.capacity@,
            CellField::Data => self.data@,
            CellField::Lock => self.lock@,
            CellField::LockHash => self.lock_hash@,
            CellField::Kind => self.kind@,
        }
    }
}

impl Ledger {
    /// The cells of one collection, in ledger order.
    pub open spec fn cells(&self, source: Source) -> Seq<Cell> {
        match source {
            Source::Input => self.inputs@,
            Source::Output => self.outputs@,
            Source::CellDep => self.cell_deps@,
        }
    }

    /// The answer to a cell query: the field's bytes, or `None` past the end.
    pub open spec fn record(&self, source: Source, index: int, field: CellField) -> Option<Seq<u8>> {
        if 0 <= index < self.cells(source).len() {
            Some(self.cells(source)[index].field(field))
        } else {
            None
        }
    }

    /// The current time: the header's timestamp, eight bytes read as a
    /// little-endian number.
    pub open spec fn current_time(&self) -> Result<u64, i8> {
        match self.header_timestamp {
            Some(bytes) => if bytes@.len() == 8 {
                Ok(le_u64_at(bytes@, 0) as u64)
            } else {
                Err(ERROR_ENCODING)
            },
            None => Err(ERROR_SYSCALL),
        }
    }

    /// The answer to a witness query.
    pub open spec fn witness(&self, index: int) -> Option<Seq<u8>> {
        if 0 <= index < self.witnesses@.len() {
            Some(self.witnesses@[index]@)
        } else {
            None
        }
    }

    /// A snapshot with no cells, no witnesses, no arguments and no header.
    pub fn new() -> (ledger: Ledger)
        ensures
            ledger.args is None,
            ledger.header_timestamp is None,
            ledger.inputs@.len() == 0,
            ledger.outputs@.len() == 0,
            ledger.cell_deps@.len() == 0,
            ledger.witnesses@.len() == 0,
    {
        Ledger {
            args: None,
            inputs: Vec::new(),
            outputs: Vec::new(),
            cell_deps: Vec::new(),
            witnesses: Vec::new(),
            header_timestamp: None,
        }
    }
}

impl Cell {
    /// A cell that carries `data` and nothing else.
    pub fn with_data(data: Vec<u8>) -> (cell: Cell)
        ensures
            cell.data@ == data@,
            cell.capacity@.len() == 0,
            cell.lock@.len() == 0,
            cell.lock_hash@.len() == 0,
            cell.kind@.len() == 0,
    {
        Cell { capacity: Vec::new(), data, lock: Vec::new(), lock_hash: Vec::new(), kind: Vec::new() }
    }
}

/// Capacity of the buffer that receives the script's argument record.
pub const ARGS_CAPACITY: usize = 128;
/// Capacity of the buffer that receives a cell's field.
pub const RECORD_CAPACITY: usize = 2048;
/// Capacity of the buffer that receives a witness.
pub const WITNESS_CAPACITY: usize = 2048;

/// Admits bytes of the length that the host reports into a buffer of the
/// capacity given: what does not fit is refused as badly encoded, never cut
/// short.
pub fn check_capacity(reported_len: usize, capacity: usize) -> (admitted: Result<usize, i8>)
    ensures
        admitted == if reported_len <= capacity {
            Ok::<usize, i8>(reported_len)
        } else {
            Err::<usize, i8>(ERROR_ENCODING)
        },
{
    if reported_len <= capacity {
        Ok(reported_len)
    } else {
        Err(ERROR_ENCODING)
    }
}

/// The view of an optional byte string.
pub open spec fn bytes_view(found: Option<&[u8]>) -> Option<Seq<u8>> {
    match found {
        Some(bytes) => Some(bytes@),
        None => None,
    }
}

/// Looks up one field of the cell at `index` of a collection.
pub fn load_cell_by_field<'a>(ledger: &'a Ledger, index: usize, source: Source, field: CellField) -> (found: Option<&'a [u8]>)
    ensures
        bytes_view(found) == ledger.record(source, index as int, field),
{
    let cells = match source {
        Source::Input => &ledger.inputs,
        Source::Output => &ledger.outputs,
        Source::CellDep => &ledger.cell_deps,
    };
    if index >= cells.len() {
        return None;
    }
    let cell = &cells[index];
    let bytes = match field {
        CellField::Capacity => &cell.capacity,
        CellField::Data => &cell.data,
        CellField::Lock => &cell.lock,
        CellField::LockHash => &cell.lock_hash,
        CellField::Kind => &cell.kind,
    };
    Some(bytes.as_slice())
}

/// Looks up one field of the input at `index`.
pub fn load_input_by_field<'a>(ledger: &'a Ledger, index: usize, field: CellField) -> (found: Option<&'a [u8]>)
    ensures
        bytes_view(found) == ledger.record(Source::Input, index as int, field),
{
    load_cell_by_field(ledger, index, Source::Input, field)
}

/// Looks up one field of the output at `index`.
pub fn load_output_by_field<'a>(ledger: &'a Ledger, index: usize, field: CellField) -> (found: Option<&'a [u8]>)
    ensures
        bytes_view(found) == ledger.record(Source::Output, index as int, field),
{
    load_cell_by_field(ledger, index, Source::Output, field)
}

/// Looks up one field of the cell dependency at `index`.
pub fn load_cell_dep_by_field<'a>(ledger: &'a Ledger, index: usize, field: CellField) -> (found: Option<&'a [u8]>)
    ensures
        bytes_view(found) == ledger.record(Source::CellDep, index as int, field),
{
    load_cell_by_field(ledger, index, Source::CellDep, field)
}

/// Looks up the witness of the input at `index`.
pub fn load_witness<'a>(ledger: &'a Ledger, index: usize) -> (found: Option<&'a [u8]>)
    ensures
        bytes_view(found) == ledger.witness(index as int),
{
    if index >= ledger.witnesses.len() {
        return None;
    }
    Some(ledger.witnesses[index].as_slice())
}

/// Reads the current time: the timestamp of the first input's header. Its
/// absence is a host fault; a timestamp that is not eight bytes long is badly
/// encoded.
pub fn load_current_timestamp(ledger: &Ledger) -> (now: Result<u64, i8>)
    ensures
        now == ledger.current_time(),
{
    match &ledger.header_timestamp {
        Some(bytes) => {
            if bytes.len() != TIMESTAMP_SIZE {
                return Err(ERROR_ENCODING);
            }
            Ok(read_u64_le(bytes.as_slice(), 0))
        },
        None => Err(ERROR_SYSCALL),
    }
}

/// The script's argument record. Its absence is a host fault.
pub fn load_script_args<'a>(ledger: &'a Ledger) -> (args: Result<&'a [u8], i8>)
    ensures
        match ledger.args {
            Some(a) => args is Ok && args->Ok_0@ == a@,
            None => args == Err::<&[u8], i8>(ERROR_SYSCALL),
        },
{
    match &ledger.args {
        Some(a) => Ok(a.as_slice()),
        None => Err(ERROR_SYSCALL),
    }
}

} // verus!
