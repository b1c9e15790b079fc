//! The dispatcher: parses the script's argument record and routes to the
//! validator of the kind it names.

use vstd::prelude::*;
use crate::codec::{parse_script_args, parsed_script_args};
use crate::codes::{ERROR_INVALID_ARGS, ERROR_SYSCALL, EVENTFUND_TYPE, METADATA_TYPE, VOTER_TYPE};
use crate::ledger::{load_script_args, Ledger};
use crate::validators::{
    ballot_verdict, eventfund_verdict, metadata_verdict, result_verdict, verify_eventfund,
    verify_metadata, verify_result_release, verify_voter_ballot,
};

verus! {

/// The verdict on a transaction whose script has the argument record `args`.
pub open spec fn dispatch_verdict(ledger: &Ledger, args: Seq<u8>) -> i8 {
    match parsed_script_args(args) {
        Ok(a) => if a.kind == EVENTFUND_TYPE {
            eventfund_verdict(ledger, a.event_id)
        } else if a.kind == METADATA_TYPE {
            metadata_verdict(ledger, a.event_id)
        } else if a.kind == VOTER_TYPE {
            ballot_verdict(ledger, a.event_id, a.voter_identity)
        } else {
            result_verdict(ledger, a.event_id)
        },
        Err(e) => e,
    }
}

/// The verdict on a transaction: the status code that the process ends with.
pub open spec fn entry_verdict(ledger: &Ledger) -> i8 {
    match ledger.args {
        Some(args) => dispatch_verdict(ledger, args@),
        None => ERROR_SYSCALL,
    }
}

/// Validates a transaction against an argument record.
pub fn dispatch(ledger: &Ledger, args: &[u8]) -> (code: i8)
    ensures
        code == dispatch_verdict(ledger, args@),
        args@.len() < 33 ==> code == ERROR_INVALID_ARGS,
{
    let parsed = match parse_script_args(args) {
        Ok(a) => a,
        Err(e) => {
            return e;
        },
    };
    let event_id = parsed.event_id.as_slice();
    if parsed.kind == EVENTFUND_TYPE {
        verify_eventfund(ledger, event_id)
    } else if parsed.kind == METADATA_TYPE {
        verify_metadata(ledger, event_id)
    } else if parsed.kind == VOTER_TYPE {
        verify_voter_ballot(ledger, event_id, parsed.voter_identity.as_slice())
    } else {
        verify_result_release(ledger, event_id)
    }
}

/// Validates the transaction of a snapshot and gives its status code.
pub fn program_entry(ledger: &Ledger) -> (code: i8)
    ensures
        code == entry_verdict(ledger),
{
    match load_script_args(ledger) {
        Ok(args) => dispatch(ledger, args),
        Err(e) => e,
    }
}

} // verus!
