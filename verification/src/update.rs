use vstd::prelude::*;

use crate::error::Error;
use crate::helper::TIME_INFO_CELL_DATA_LEN;
use crate::helper::args_check_verdict;
use crate::helper::cell_args_check;
use crate::helper::get_script_hash_cell_count;
use crate::helper::input_cell_since_check;
use crate::helper::load_cell_data;
use crate::helper::required_since_value;
use crate::helper::sinces_match;
use crate::helper::timestamp_check;
use crate::helper::timestamp_in_window;
use crate::ledger::ScriptHash;
use crate::ledger::Source;
use crate::ledger::TxView;
use crate::ledger::cell_matches;
use crate::ledger::count_matching;
use crate::ledger::first_match_idx;
use crate::ledger::lemma_count_pos_has_match;
use crate::ledger::lemma_no_match_count_zero;
use crate::record::Record;
use crate::record::spec_timestamp_of;

verus! {

/// The payload of the consumed record cell: the first consumed cell bound
/// to the identity. Meaningful once consumed-side cardinality is one.
pub open spec fn consumed_record_data(tx: TxView, script_hash: ScriptHash) -> Seq<u8> {
    tx.inputs@[first_match_idx(tx.inputs@, script_hash)].data@
}

/// The payload of the produced record cell: the first produced cell bound
/// to the identity. Meaningful once produced-side cardinality is one.
pub open spec fn produced_record_data(tx: TxView, script_hash: ScriptHash) -> Seq<u8> {
    tx.outputs@[first_match_idx(tx.outputs@, script_hash)].data@
}

/// What the update path decides, check by check, first failure winning:
/// exactly one consumed and one produced cell bound to the identity,
/// argument continuity, two five-byte payloads, the timestamp window, the
/// exact relative-time-lock value, and an unchanged slot index.
pub open spec fn update_verdict(tx: TxView, script_hash: ScriptHash) -> Result<(), Error> {
    if count_matching(tx.inputs@, script_hash) != 1 {
        Err(Error::InvalidInput)
    } else if count_matching(tx.outputs@, script_hash) != 1 {
        Err(Error::InvalidOutput)
    } else if args_check_verdict(tx, script_hash) is Err {
        args_check_verdict(tx, script_hash)
    } else {
        let in_data = consumed_record_data(tx, script_hash);
        let out_data = produced_record_data(tx, script_hash);
        if in_data.len() != TIME_INFO_CELL_DATA_LEN {
            Err(Error::InvalidCellData)
        } else if out_data.len() != TIME_INFO_CELL_DATA_LEN {
            Err(Error::InvalidCellData)
        } else if !timestamp_in_window(spec_timestamp_of(in_data), spec_timestamp_of(out_data)) {
            Err(Error::InvalidTimestamp)
        } else if !sinces_match(tx.inputs@, script_hash, spec_timestamp_of(in_data)) {
            Err(Error::InvalidTimeSince)
        } else if out_data[0] != in_data[0] {
            Err(Error::InvalidTimeIndex)
        } else {
            Ok(())
        }
    }
}

/// Validates a transaction that advances the existing record cell.
pub fn update(tx: &TxView, script_hash: ScriptHash) -> (r: Result<(), Error>)
    ensures
        r == update_verdict(*tx, script_hash),
{
    if get_script_hash_cell_count(tx, script_hash, Source::Input) != 1 {
        return Err(Error::InvalidInput);
    }
    if get_script_hash_cell_count(tx, script_hash, Source::Output) != 1 {
        return Err(Error::InvalidOutput);
    }
    match cell_args_check(tx, script_hash) {
        Ok(()) => {},
        Err(e) => {
            return Err(e);
        },
    }
    let input_cell_data = match load_cell_data(tx, script_hash, Source::Input) {
        Ok(data) => data,
        Err(e) => {
            proof {
                lemma_no_match_count_zero(tx.inputs@, script_hash);
            }
            return Err(e);
        },
    };
    let input_record = match Record::decode(&input_cell_data) {
        Ok(record) => record,
        Err(e) => {
            return Err(e);
        },
    };
    let output_cell_data = match load_cell_data(tx, script_hash, Source::Output) {
        Ok(data) => data,
        Err(e) => {
            proof {
                lemma_no_match_count_zero(tx.outputs@, script_hash);
            }
            return Err(e);
        },
    };
    let output_record = match Record::decode(&output_cell_data) {
        Ok(record) => record,
        Err(e) => {
            return Err(e);
        },
    };
    let last_timestamp = input_record.timestamp;
    let current_timestamp = output_record.timestamp;
    match timestamp_check(last_timestamp, current_timestamp) {
        Ok(()) => {},
        Err(e) => {
            return Err(e);
        },
    }
    match input_cell_since_check(tx, script_hash, last_timestamp) {
        Ok(()) => {},
        Err(e) => {
            return Err(e);
        },
    }
    if output_record.slot_index != input_record.slot_index {
        return Err(Error::InvalidTimeIndex);
    }
    Ok(())
}

/// Everything an accepted update guarantees: both cardinalities are one,
/// the arguments continue, both payloads are well formed, the new
/// timestamp sits inside the window over the old one (so it strictly
/// increases), the consumed cell carries exactly the required time lock,
/// and the slot index is kept.
pub proof fn lemma_update_accepted_properties(tx: TxView, script_hash: ScriptHash)
    requires
        update_verdict(tx, script_hash) == Ok::<(), Error>(()),
    ensures
        count_matching(tx.inputs@, script_hash) == 1,
        count_matching(tx.outputs@, script_hash) == 1,
        tx.script_args@.len() > 0,
        tx.inputs@[first_match_idx(tx.inputs@, script_hash)].args@ == tx.script_args@,
        consumed_record_data(tx, script_hash).len() == TIME_INFO_CELL_DATA_LEN,
        produced_record_data(tx, script_hash).len() == TIME_INFO_CELL_DATA_LEN,
        timestamp_in_window(
            spec_timestamp_of(consumed_record_data(tx, script_hash)),
            spec_timestamp_of(produced_record_data(tx, script_hash)),
        ),
        spec_timestamp_of(produced_record_data(tx, script_hash)) > spec_timestamp_of(
            consumed_record_data(tx, script_hash),
        ),
        sinces_match(
            tx.inputs@,
            script_hash,
            spec_timestamp_of(consumed_record_data(tx, script_hash)),
        ),
        tx.inputs@[first_match_idx(tx.inputs@, script_hash)].since == required_since_value(
            spec_timestamp_of(consumed_record_data(tx, script_hash)),
        ),
        produced_record_data(tx, script_hash)[0] == consumed_record_data(tx, script_hash)[0],
{
    lemma_count_pos_has_match(tx.inputs@, script_hash);
    assert(cell_matches(tx.inputs@[first_match_idx(tx.inputs@, script_hash)], script_hash));
}

/// The slot index is immutable: an update whose produced record carries a
/// slot index other than the consumed one is never accepted, whatever the
/// timestamps and locks say.
pub proof fn lemma_update_slot_immutable(tx: TxView, script_hash: ScriptHash)
    requires
        produced_record_data(tx, script_hash)[0] != consumed_record_data(tx, script_hash)[0],
    ensures
        update_verdict(tx, script_hash) != Ok::<(), Error>(()),
{
}

/// Once every earlier update check has passed, the verdict turns on the
/// consumed cell's time lock: any matching consumed cell whose lock is not
/// exactly the required value makes the verdict `InvalidTimeSince`.
pub proof fn lemma_update_since_rule(tx: TxView, script_hash: ScriptHash)
    requires
        count_matching(tx.inputs@, script_hash) == 1,
        count_matching(tx.outputs@, script_hash) == 1,
        args_check_verdict(tx, script_hash) == Ok::<(), Error>(()),
        consumed_record_data(tx, script_hash).len() == TIME_INFO_CELL_DATA_LEN,
        produced_record_data(tx, script_hash).len() == TIME_INFO_CELL_DATA_LEN,
        timestamp_in_window(
            spec_timestamp_of(consumed_record_data(tx, script_hash)),
            spec_timestamp_of(produced_record_data(tx, script_hash)),
        ),
        !sinces_match(
            tx.inputs@,
            script_hash,
            spec_timestamp_of(consumed_record_data(tx, script_hash)),
        ),
    ensures
        update_verdict(tx, script_hash) == Err::<(), Error>(Error::InvalidTimeSince),
{
}

} // verus!
