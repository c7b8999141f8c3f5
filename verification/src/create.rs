use vstd::prelude::*;

use crate::error::Error;
use crate::helper::TIME_INFO_CELL_DATA_LEN;
use crate::helper::TIME_INFO_CELL_DATA_N;
use crate::helper::get_script_hash_cell_count;
use crate::helper::load_cell_data;
use crate::record::Record;
use crate::ledger::ScriptHash;
use crate::ledger::Source;
use crate::ledger::TxView;
use crate::ledger::count_matching;
use crate::ledger::first_match_idx;
use crate::ledger::is_first_match;
use crate::ledger::lemma_first_match_unique;
use crate::ledger::lemma_no_match_count_zero;

verus! {

/// What the create path decides, check by check, first failure winning:
/// exactly one produced cell bound to the identity, a non-empty executing
/// argument, a five-byte payload, and a slot index below the slot count.
/// The initial timestamp value is unconstrained.
pub open spec fn create_verdict(tx: TxView, script_hash: ScriptHash) -> Result<(), Error> {
    if count_matching(tx.outputs@, script_hash) != 1 {
        Err(Error::InvalidOutput)
    } else if tx.script_args@.len() == 0 {
        Err(Error::InvalidArgument)
    } else {
        let data = tx.outputs@[first_match_idx(tx.outputs@, script_hash)].data@;
        if data.len() != TIME_INFO_CELL_DATA_LEN {
            Err(Error::InvalidCellData)
        } else if data[0] >= TIME_INFO_CELL_DATA_N {
            Err(Error::InvalidTimeIndex)
        } else {
            Ok(())
        }
    }
}

/// Validates a transaction that brings the record cell into existence.
pub fn create(tx: &TxView, script_hash: ScriptHash) -> (r: Result<(), Error>)
    ensures
        r == create_verdict(*tx, script_hash),
{
    if get_script_hash_cell_count(tx, script_hash, Source::Output) != 1 {
        return Err(Error::InvalidOutput);
    }
    if tx.script_args.len() == 0 {
        return Err(Error::InvalidArgument);
    }
    let output_cell_data = match load_cell_data(tx, script_hash, Source::Output) {
        Ok(data) => data,
        Err(e) => {
            proof {
                lemma_no_match_count_zero(tx.outputs@, script_hash);
            }
            return Err(e);
        },
    };
    let record = match Record::decode(&output_cell_data) {
        Ok(record) => record,
        Err(e) => {
            return Err(e);
        },
    };
    if record.slot_index >= TIME_INFO_CELL_DATA_N {
        return Err(Error::InvalidTimeIndex);
    }
    Ok(())
}

/// A well-formed single-output creation is decided by the slot index
/// alone: every index below the slot count is accepted, whatever the
/// timestamp, and every other index is rejected as `InvalidTimeIndex`.
pub proof fn lemma_create_slot_rule(tx: TxView, script_hash: ScriptHash, i: int)
    requires
        count_matching(tx.outputs@, script_hash) == 1,
        tx.script_args@.len() > 0,
        is_first_match(tx.outputs@, script_hash, i),
        tx.outputs@[i].data@.len() == TIME_INFO_CELL_DATA_LEN,
    ensures
        create_verdict(tx, script_hash) == (if tx.outputs@[i].data@[0] < TIME_INFO_CELL_DATA_N {
            Result::<(), Error>::Ok(())
        } else {
            Result::<(), Error>::Err(Error::InvalidTimeIndex)
        }),
{
    lemma_first_match_unique(tx.outputs@, script_hash, i);
}

} // verus!
