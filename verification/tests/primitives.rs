use votesecure::bytes::{bytes_equal, read_array, read_u16_le, read_u32_le, read_u64_le};
use votesecure::codec::{parse_metadata, parse_result_cell, parse_script_args, parse_voter_ballot};
use votesecure::codes::{
    ERROR_ENCODING, ERROR_INVALID_ARGS, ERROR_METADATA_NOT_FOUND, ERROR_SYSCALL, METADATA_TYPE,
    RESULT_TYPE, VOTER_TYPE,
};
use votesecure::crypto::{
    blake2b_hash, compute_pubkey_hash, verify_secp256k1_signature, verify_signature_by_hash,
};
use votesecure::ledger::{
    check_capacity, load_cell_by_field, load_cell_dep_by_field, load_current_timestamp,
    load_input_by_field, load_output_by_field, load_script_args, load_witness, Cell, CellField,
    Ledger, Source,
};
use votesecure::scan::{
    compute_tx_hash, count_event_ballots, count_voter_ballots, find_metadata_cell, has_record,
    load_metadata, load_metadata_record, matches_record,
};

fn event(n: u8) -> Vec<u8> {
    vec![n; 32]
}

fn key(seed: u8) -> Vec<u8> {
    let mut k = vec![seed; 33];
    k[0] = 2;
    k
}

fn identity(seed: u8) -> Vec<u8> {
    key(seed)[..20].to_vec()
}

fn block(seed: u8) -> Vec<u8> {
    let mut b = key(seed);
    b.extend_from_slice(&[0x11u8; 64]);
    b
}

fn cell(data: Vec<u8>) -> Cell {
    Cell { capacity: vec![], data, lock: vec![], lock_hash: vec![], kind: vec![] }
}

fn empty() -> Ledger {
    Ledger { args: None, inputs: vec![], outputs: vec![], cell_deps: vec![], witnesses: vec![], header_timestamp: None }
}

fn record(kind: u8, ev: &[u8], rest: &[u8]) -> Vec<u8> {
    let mut d = vec![kind];
    d.extend_from_slice(ev);
    d.extend_from_slice(rest);
    d
}

fn metadata(ev: &[u8]) -> Vec<u8> {
    let mut d = record(METADATA_TYPE, ev, &identity(7));
    d.extend_from_slice(&100u64.to_le_bytes());
    d.extend_from_slice(&200u64.to_le_bytes());
    d.extend_from_slice(&300u64.to_le_bytes());
    d.extend_from_slice(&[1, 4, 2]);
    d.extend_from_slice(&0x0203u16.to_le_bytes());
    d
}

#[test]
fn bytes_equal_compares_length_and_content() {
    assert!(bytes_equal(&[1, 2, 3], &[1, 2, 3]));
    assert!(!bytes_equal(&[1, 2, 3], &[1, 2, 4]));
    assert!(!bytes_equal(&[1, 2, 3], &[1, 2]));
    assert!(bytes_equal(&[], &[]));
}

#[test]
fn digest_pads_short_data_with_zeros() {
    let mut out = [0xffu8; 32];
    blake2b_hash(&[9, 8, 7], &mut out);
    let mut expected = [0u8; 32];
    expected[0] = 9;
    expected[1] = 8;
    expected[2] = 7;
    assert_eq!(out, expected);
}

#[test]
fn digest_keeps_the_first_32_bytes_of_long_data() {
    let data: Vec<u8> = (0u8..40).collect();
    let mut out = [0u8; 32];
    blake2b_hash(&data, &mut out);
    assert_eq!(out.to_vec(), data[..32].to_vec());
}

#[test]
fn digest_of_nothing_is_zero() {
    let mut out = [5u8; 32];
    blake2b_hash(&[], &mut out);
    assert_eq!(out, [0u8; 32]);
}

#[test]
fn identity_hash_is_the_first_20_bytes_of_the_digest() {
    let mut k = [0u8; 33];
    for (i, b) in k.iter_mut().enumerate() {
        *b = i as u8 + 1;
    }
    let h = compute_pubkey_hash(&k);
    assert_eq!(h.to_vec(), k[..20].to_vec());
}

#[test]
fn read_array_copies_the_bytes_at_an_offset() {
    let b = block(9);
    assert_eq!(read_array::<33>(&b, 0).to_vec(), key(9));
    assert_eq!(read_array::<3>(&[1, 2, 3, 4, 5], 1), [2, 3, 4]);
    assert_eq!(read_array::<0>(&[1, 2], 2), [0u8; 0]);
}

#[test]
fn argument_record_with_a_voter() {
    let mut a = record(VOTER_TYPE, &event(6), &identity(3));
    let parsed = parse_script_args(&a).unwrap();
    assert_eq!(parsed.kind, VOTER_TYPE);
    assert_eq!(parsed.event_id.to_vec(), event(6));
    assert_eq!(parsed.voter_identity.to_vec(), identity(3));
    a.extend_from_slice(&[0xff; 10]);
    assert_eq!(parse_script_args(&a).unwrap().voter_identity.to_vec(), identity(3));
}

#[test]
fn argument_record_without_a_voter_names_twenty_zero_bytes() {
    let a = record(RESULT_TYPE, &event(6), &[]);
    let parsed = parse_script_args(&a).unwrap();
    assert_eq!(parsed.kind, RESULT_TYPE);
    assert_eq!(parsed.event_id.to_vec(), event(6));
    assert_eq!(parsed.voter_identity, [0u8; 20]);
    let cut = record(VOTER_TYPE, &event(6), &identity(3)[..19]);
    assert_eq!(parse_script_args(&cut).unwrap().voter_identity, [0u8; 20]);
}

#[test]
fn argument_record_short_or_of_unknown_kind_is_refused() {
    assert_eq!(parse_script_args(&[2u8; 10]).err(), Some(ERROR_INVALID_ARGS));
    assert_eq!(parse_script_args(&[]).err(), Some(ERROR_INVALID_ARGS));
    assert_eq!(parse_script_args(&[0u8; 32]).err(), Some(ERROR_INVALID_ARGS));
    assert!(parse_script_args(&[0u8; 33]).is_ok());
    assert_eq!(parse_script_args(&record(4, &event(6), &[])).err(), Some(ERROR_INVALID_ARGS));
    assert_eq!(parse_script_args(&record(255, &event(6), &identity(3))).err(), Some(ERROR_INVALID_ARGS));
}

#[test]
fn signature_check_accepts_a_well_formed_pair() {
    let digest = [0u8; 32];
    assert!(verify_secp256k1_signature(&key(5), &[0x11u8; 64], &digest));
    let mut k3 = key(5);
    k3[0] = 3;
    assert!(verify_secp256k1_signature(&k3, &[0x11u8; 64], &digest));
}

// A known defect, kept on record: the check is structural, so a signature that
// no key ever made passes it.
#[test]
fn signature_check_accepts_garbage_that_is_well_formed() {
    let mut sig = [0u8; 64];
    sig[31] = 1;
    sig[63] = 1;
    assert!(verify_secp256k1_signature(&key(5), &sig, &[0xabu8; 32]));
}

#[test]
fn signature_check_refuses_wrong_lengths() {
    let digest = [0u8; 32];
    assert!(!verify_secp256k1_signature(&key(5)[..32], &[0x11u8; 64], &digest));
    assert!(!verify_secp256k1_signature(&key(5), &[0x11u8; 63], &digest));
    assert!(!verify_secp256k1_signature(&key(5), &[0x11u8; 65], &digest));
}

#[test]
fn signature_check_refuses_a_bad_leading_byte() {
    let mut k = key(5);
    k[0] = 4;
    assert!(!verify_secp256k1_signature(&k, &[0x11u8; 64], &[0u8; 32]));
    k[0] = 0;
    assert!(!verify_secp256k1_signature(&k, &[0x11u8; 64], &[0u8; 32]));
}

#[test]
fn signature_check_refuses_a_zero_half() {
    let digest = [0u8; 32];
    assert!(!verify_secp256k1_signature(&key(5), &[0u8; 64], &digest));
    let mut r_zero = [0x11u8; 64];
    for b in r_zero[..32].iter_mut() {
        *b = 0;
    }
    assert!(!verify_secp256k1_signature(&key(5), &r_zero, &digest));
    let mut s_zero = [0x11u8; 64];
    for b in s_zero[32..].iter_mut() {
        *b = 0;
    }
    assert!(!verify_secp256k1_signature(&key(5), &s_zero, &digest));
}

#[test]
fn witness_proves_the_identity_of_its_key() {
    let digest = [0u8; 32];
    let mut id = [0u8; 20];
    id.copy_from_slice(&identity(5));
    assert!(verify_signature_by_hash(&id, &block(5), &digest));
    let mut longer = block(5);
    longer.extend_from_slice(&[0u8; 30]);
    assert!(verify_signature_by_hash(&id, &longer, &digest));
}

#[test]
fn witness_of_another_key_or_cut_short_proves_nothing() {
    let digest = [0u8; 32];
    let mut id = [0u8; 20];
    id.copy_from_slice(&identity(5));
    assert!(!verify_signature_by_hash(&id, &block(6), &digest));
    assert!(!verify_signature_by_hash(&id, &block(5)[..96], &digest));
    assert!(!verify_signature_by_hash(&id, &[], &digest));
}

#[test]
fn little_endian_numbers() {
    assert_eq!(read_u64_le(&[1, 2, 3, 4, 5, 6, 7, 8], 0), 0x0807060504030201);
    assert_eq!(read_u64_le(&[0, 0xff, 0xff, 0xff, 0xff, 0xff, 0xff, 0xff, 0xff], 1), u64::MAX);
    assert_eq!(read_u64_le(&[0x2c, 1, 0, 0, 0, 0, 0, 0], 0), 300);
    assert_eq!(read_u32_le(&[0x78, 0x56, 0x34, 0x12], 0), 0x12345678);
    assert_eq!(read_u32_le(&[0, 0xff, 0xff, 0xff, 0xff], 1), u32::MAX);
    assert_eq!(read_u16_le(&[0x34, 0x12], 0), 0x1234);
    assert_eq!(read_u16_le(&[9, 0xff, 0xff], 1), u16::MAX);
}

#[test]
fn metadata_fields_are_read_at_their_offsets() {
    let ev = event(4);
    let m = parse_metadata(&metadata(&ev)).unwrap();
    assert_eq!(m.event_id.to_vec(), ev);
    assert_eq!(m.organizer_lock_hash.to_vec(), identity(7));
    assert_eq!(m.voting_start, 100);
    assert_eq!(m.voting_end, 200);
    assert_eq!(m.audit_end_time, 300);
    assert_eq!(m.eligibility_mode, 1);
    assert_eq!(m.max_revotes, 4);
    assert_eq!(m.required_signatures, 2);
    assert_eq!(m.k_anonymity_threshold, 0x0203);
}

#[test]
fn metadata_shorter_than_its_prefix_is_badly_encoded() {
    let full = metadata(&event(4));
    assert_eq!(full.len(), 82);
    assert_eq!(parse_metadata(&full[..81]).err(), Some(ERROR_ENCODING));
    assert_eq!(parse_metadata(&[]).err(), Some(ERROR_ENCODING));
    assert!(parse_metadata(&full).is_ok());
}

#[test]
fn capacity_is_checked_not_cut() {
    assert_eq!(check_capacity(128, 128), Ok(128));
    assert_eq!(check_capacity(0, 128), Ok(0));
    assert_eq!(check_capacity(129, 128), Err(ERROR_ENCODING));
}

#[test]
fn lookups_answer_none_past_the_end() {
    let mut l = empty();
    l.inputs.push(Cell { capacity: vec![1], data: vec![2], lock: vec![3], lock_hash: vec![4], kind: vec![5] });
    l.outputs.push(cell(vec![6]));
    l.cell_deps.push(cell(vec![7]));
    l.witnesses.push(vec![8]);
    assert_eq!(load_cell_by_field(&l, 0, Source::Input, CellField::Capacity), Some(&[1u8][..]));
    assert_eq!(load_input_by_field(&l, 0, CellField::Data), Some(&[2u8][..]));
    assert_eq!(load_input_by_field(&l, 0, CellField::Lock), Some(&[3u8][..]));
    assert_eq!(load_input_by_field(&l, 0, CellField::LockHash), Some(&[4u8][..]));
    assert_eq!(load_input_by_field(&l, 0, CellField::Kind), Some(&[5u8][..]));
    assert_eq!(load_input_by_field(&l, 1, CellField::Data), None);
    assert_eq!(load_output_by_field(&l, 0, CellField::Data), Some(&[6u8][..]));
    assert_eq!(load_output_by_field(&l, 1, CellField::Data), None);
    assert_eq!(load_cell_dep_by_field(&l, 0, CellField::Data), Some(&[7u8][..]));
    assert_eq!(load_cell_dep_by_field(&l, 1, CellField::Data), None);
    assert_eq!(load_witness(&l, 0), Some(&[8u8][..]));
    assert_eq!(load_witness(&l, 1), None);
}

#[test]
fn missing_header_and_arguments_are_host_faults() {
    let mut l = empty();
    assert_eq!(load_current_timestamp(&l), Err(ERROR_SYSCALL));
    assert_eq!(load_script_args(&l), Err(ERROR_SYSCALL));
    l.header_timestamp = Some(vec![42, 1, 0, 0, 0, 0, 0, 0]);
    l.args = Some(vec![1, 2]);
    assert_eq!(load_current_timestamp(&l), Ok(298));
    assert_eq!(load_script_args(&l), Ok(&[1u8, 2][..]));
}

#[test]
fn new_ledger_and_cell_are_empty() {
    let l = Ledger::new();
    assert!(l.args.is_none() && l.header_timestamp.is_none());
    assert!(l.inputs.is_empty() && l.outputs.is_empty() && l.cell_deps.is_empty() && l.witnesses.is_empty());
    let c = Cell::with_data(vec![1, 2]);
    assert_eq!(c.data, vec![1, 2]);
    assert!(c.capacity.is_empty() && c.lock.is_empty() && c.lock_hash.is_empty() && c.kind.is_empty());
}

#[test]
fn a_record_matches_by_kind_event_and_owner() {
    let ev = event(1);
    let ballot = record(VOTER_TYPE, &ev, &identity(3));
    assert!(matches_record(&ballot, VOTER_TYPE, &ev, None));
    assert!(matches_record(&ballot, VOTER_TYPE, &ev, Some(&identity(3))));
    assert!(!matches_record(&ballot, VOTER_TYPE, &ev, Some(&identity(4))));
    assert!(!matches_record(&ballot, METADATA_TYPE, &ev, None));
    assert!(!matches_record(&ballot, VOTER_TYPE, &event(2), None));
    assert!(!matches_record(&ballot[..32], VOTER_TYPE, &ev, None));
    assert!(!matches_record(&ballot[..52], VOTER_TYPE, &ev, Some(&identity(3))));
    assert!(matches_record(&ballot[..33], VOTER_TYPE, &ev, None));
    assert!(!matches_record(&ballot, VOTER_TYPE, &ev[..31], None));
}

#[test]
fn the_first_matching_metadata_cell_is_found() {
    let ev = event(1);
    let mut l = empty();
    l.cell_deps.push(cell(vec![0xde, 0xad]));
    l.cell_deps.push(cell(metadata(&event(2))));
    l.cell_deps.push(cell(metadata(&ev)));
    l.cell_deps.push(cell(metadata(&ev)));
    assert_eq!(find_metadata_cell(&l, &ev), Ok(2));
    assert_eq!(find_metadata_cell(&l, &event(2)), Ok(1));
    assert_eq!(find_metadata_cell(&l, &event(3)), Err(ERROR_METADATA_NOT_FOUND));
    assert_eq!(load_metadata_record(&l, &ev).unwrap(), &metadata(&ev)[..]);
    assert_eq!(load_metadata(&l, &ev).unwrap().voting_end, 200);
    assert_eq!(load_metadata(&l, &event(3)).err(), Some(ERROR_METADATA_NOT_FOUND));
}

#[test]
fn the_metadata_scan_stops_after_16_cells() {
    let ev = event(1);
    let mut l = empty();
    for _ in 0..15 {
        l.cell_deps.push(cell(vec![]));
    }
    l.cell_deps.push(cell(metadata(&ev)));
    assert_eq!(find_metadata_cell(&l, &ev), Ok(15));
    l.cell_deps.insert(0, cell(vec![]));
    assert_eq!(find_metadata_cell(&l, &ev), Err(ERROR_METADATA_NOT_FOUND));
    assert_eq!(load_metadata(&l, &ev).err(), Some(ERROR_METADATA_NOT_FOUND));
}

#[test]
fn a_short_metadata_record_is_found_and_refused() {
    let ev = event(1);
    let mut l = empty();
    l.cell_deps.push(cell(metadata(&ev)[..60].to_vec()));
    assert_eq!(find_metadata_cell(&l, &ev), Ok(0));
    assert_eq!(load_metadata(&l, &ev).err(), Some(ERROR_ENCODING));
}

#[test]
fn records_are_looked_for_in_the_collection_named() {
    let ev = event(1);
    let mut l = empty();
    l.outputs.push(cell(record(VOTER_TYPE, &ev, &identity(3))));
    assert!(has_record(&l, Source::Output, VOTER_TYPE, &ev));
    assert!(!has_record(&l, Source::Input, VOTER_TYPE, &ev));
    assert!(!has_record(&l, Source::Output, VOTER_TYPE, &event(2)));
    for _ in 0..16 {
        l.outputs.insert(0, cell(vec![1]));
    }
    assert!(!has_record(&l, Source::Output, VOTER_TYPE, &ev));
}

#[test]
fn ballots_are_counted_by_event_and_voter() {
    let ev = event(1);
    let mut l = empty();
    l.inputs.push(cell(record(VOTER_TYPE, &ev, &identity(3))));
    l.inputs.push(cell(record(VOTER_TYPE, &ev, &identity(4))));
    l.inputs.push(cell(record(VOTER_TYPE, &event(2), &identity(3))));
    l.inputs.push(cell(record(0, &ev, &identity(3))));
    l.inputs.push(cell(record(VOTER_TYPE, &ev, &identity(3))));
    l.inputs.push(cell(record(VOTER_TYPE, &ev, &identity(3)[..19])));
    assert_eq!(count_voter_ballots(&l, &ev, &identity(3)), Ok(2));
    assert_eq!(count_voter_ballots(&l, &ev, &identity(4)), Ok(1));
    assert_eq!(count_voter_ballots(&l, &ev, &identity(5)), Ok(0));
    assert_eq!(count_event_ballots(&l, &ev), 4);
    assert_eq!(count_event_ballots(&l, &event(2)), 1);
    assert_eq!(count_event_ballots(&l, &event(3)), 0);
}

#[test]
fn the_count_stops_after_1000_cells() {
    let ev = event(1);
    let mut l = empty();
    for _ in 0..1003 {
        l.inputs.push(cell(record(VOTER_TYPE, &ev, &identity(3))));
    }
    assert_eq!(count_event_ballots(&l, &ev), 1000);
    assert_eq!(count_voter_ballots(&l, &ev, &identity(3)), Ok(1000));
}

#[test]
fn the_transaction_digest_comes_from_the_first_lock_hash() {
    let mut l = empty();
    assert_eq!(compute_tx_hash(&l), [0u8; 32]);
    let mut c = cell(vec![]);
    c.lock_hash = vec![0xaa; 32];
    l.inputs.push(c);
    assert_eq!(compute_tx_hash(&l), [0xaau8; 32]);
    l.inputs[0].lock_hash = vec![1, 2];
    let mut expected = [0u8; 32];
    expected[0] = 1;
    expected[1] = 2;
    assert_eq!(compute_tx_hash(&l), expected);
}

#[test]
fn a_timestamp_of_another_length_is_badly_encoded() {
    let mut l = empty();
    l.header_timestamp = Some(vec![1, 0, 0, 0, 0, 0, 0]);
    assert_eq!(load_current_timestamp(&l), Err(ERROR_ENCODING));
    l.header_timestamp = Some(vec![1, 0, 0, 0, 0, 0, 0, 0, 0]);
    assert_eq!(load_current_timestamp(&l), Err(ERROR_ENCODING));
    l.header_timestamp = Some(vec![]);
    assert_eq!(load_current_timestamp(&l), Err(ERROR_ENCODING));
    l.header_timestamp = Some(vec![0xff; 8]);
    assert_eq!(load_current_timestamp(&l), Ok(u64::MAX));
}

#[test]
fn ballot_fields_are_read_at_their_offsets() {
    let ev = event(4);
    let mut d = record(VOTER_TYPE, &ev, &identity(3));
    d.extend_from_slice(&7u32.to_le_bytes());
    d.extend_from_slice(&0x0102030405060708u64.to_le_bytes());
    let payload: Vec<u8> = (0..256).map(|i| i as u8).collect();
    d.extend_from_slice(&payload);
    assert_eq!(d.len(), 321);
    let b = parse_voter_ballot(&d).unwrap();
    assert_eq!(b.event_id.to_vec(), ev);
    assert_eq!(b.voter_pubkey_hash.to_vec(), identity(3));
    assert_eq!(b.sequence_number, 7);
    assert_eq!(b.timestamp, 0x0102030405060708);
    assert_eq!(b.encrypted_ballot.to_vec(), payload);
    assert_eq!(parse_voter_ballot(&d[..320]).err(), Some(ERROR_ENCODING));
    assert_eq!(parse_voter_ballot(&[]).err(), Some(ERROR_ENCODING));
}

#[test]
fn result_fields_are_read_at_their_offsets() {
    let ev = event(4);
    let mut d = record(RESULT_TYPE, &ev, &1000u32.to_le_bytes());
    d.push(2);
    assert_eq!(d.len(), 38);
    d.extend_from_slice(&[9; 12]);
    let r = parse_result_cell(&d).unwrap();
    assert_eq!(r.event_id.to_vec(), ev);
    assert_eq!(r.total_votes, 1000);
    assert_eq!(r.release_signatures_count, 2);
    assert!(parse_result_cell(&d[..38]).is_ok());
    assert_eq!(parse_result_cell(&d[..37]).err(), Some(ERROR_ENCODING));
}
