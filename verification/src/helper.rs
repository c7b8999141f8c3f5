use vstd::prelude::*;

use crate::error::Error;
use crate::ledger::CellView;
use crate::ledger::ScriptHash;
use crate::ledger::Source;
use crate::ledger::TxView;
use crate::ledger::bytes_eq;
use crate::ledger::cell_matches;
use crate::ledger::cell_matches_hash;
use crate::ledger::cells_in;
use crate::ledger::count_matching;
use crate::ledger::first_match_idx;
use crate::ledger::has_match;
use crate::ledger::is_first_match;
use crate::ledger::lemma_first_match_unique;
use crate::ledger::no_match;

verus! {

/// Length in bytes of a record payload.
pub const TIME_INFO_CELL_DATA_LEN: u8 = 5;

/// Number of time slots in a round; a slot index must stay below it.
pub const TIME_INFO_CELL_DATA_N: u8 = 12;

/// Seconds between two neighbouring slots.
pub const TIME_INFO_UPDATE_INTERVAL: u32 = 60;

/// Seconds of a full round of all slots:
/// `TIME_INFO_CELL_DATA_N` slots of `TIME_INFO_UPDATE_INTERVAL` seconds each.
pub const TIME_COST_OF_A_ROUND: u32 = 720;

/// Flag marking a relative-time-lock value as an absolute-timestamp lock
/// rather than a block-height lock.
pub const SINCE_ABSOLUTE_TIMESTAMP_FLAG: u64 = 0x4000_0000_0000_0000;

/// How many cells on the `source` side are bound to `script_hash`.
pub fn get_script_hash_cell_count(tx: &TxView, script_hash: ScriptHash, source: Source) -> (count:
    usize)
    ensures
        count == count_matching(cells_in(*tx, source), script_hash),
{
    let cells: &Vec<CellView> = match source {
        Source::Input => &tx.inputs,
        Source::Output => &tx.outputs,
    };
    let mut count: usize = 0;
    let mut i: usize = 0;
    while i < cells.len()
        invariant
            cells@ == cells_in(*tx, source),
            i <= cells@.len(),
            count <= i,
            count == count_matching(cells@.take(i as int), script_hash),
        decreases cells@.len() - i,
    {
        proof {
            assert(cells@.take(i + 1).drop_last() =~= cells@.take(i as int));
            assert(cells@.take(i + 1).last() == cells@[i as int]);
        }
        if cell_matches_hash(&cells[i], &script_hash) {
            count += 1;
        }
        i += 1;
    }
    proof {
        assert(cells@.take(cells@.len() as int) =~= cells@);
    }
    count
}

/// The position of the first cell on the `source` side bound to
/// `script_hash`, or `None` when no cell is.
pub fn get_position_of_cell_with_type_script(
    tx: &TxView,
    script_hash: ScriptHash,
    source: Source,
) -> (r: Option<usize>)
    ensures
        (match r {
            Some(i) => is_first_match(cells_in(*tx, source), script_hash, i as int),
            None => no_match(cells_in(*tx, source), script_hash),
        }),
{
    let cells: &Vec<CellView> = match source {
        Source::Input => &tx.inputs,
        Source::Output => &tx.outputs,
    };
    let mut i: usize = 0;
    while i < cells.len()
        invariant
            cells@ == cells_in(*tx, source),
            i <= cells@.len(),
            forall|j: int| 0 <= j < i ==> !cell_matches(#[trigger] cells@[j], script_hash),
        decreases cells@.len() - i,
    {
        if cell_matches_hash(&cells[i], &script_hash) {
            return Some(i);
        }
        i += 1;
    }
    None
}

/// The error that stands for a missing match on the `source` side.
pub open spec fn missing_cell_error(source: Source) -> Error {
    match source {
        Source::Input => Error::InvalidInput,
        Source::Output => Error::InvalidOutput,
    }
}

/// The payload of the first cell on the `source` side bound to
/// `script_hash`; the side's cardinality error when no cell matches.
pub fn load_cell_data(tx: &TxView, script_hash: ScriptHash, source: Source) -> (r: Result<
    Vec<u8>,
    Error,
>)
    ensures
        (match r {
            Ok(data) => {
                &&& has_match(cells_in(*tx, source), script_hash)
                &&& data@ == cells_in(*tx, source)[first_match_idx(
                    cells_in(*tx, source),
                    script_hash,
                )].data@
            },
            Err(e) => {
                &&& no_match(cells_in(*tx, source), script_hash)
                &&& e == missing_cell_error(source)
            },
        }),
{
    let pos = get_position_of_cell_with_type_script(tx, script_hash, source);
    let i = match pos {
        Some(i) => i,
        None => {
            return Err(
                match source {
                    Source::Input => Error::InvalidInput,
                    Source::Output => Error::InvalidOutput,
                },
            );
        },
    };
    proof {
        lemma_first_match_unique(cells_in(*tx, source), script_hash, i as int);
    }
    let cells: &Vec<CellView> = match source {
        Source::Input => &tx.inputs,
        Source::Output => &tx.outputs,
    };
    let cell_data: &Vec<u8> = &cells[i].data;
    let mut data: Vec<u8> = Vec::new();
    let mut k: usize = 0;
    while k < cell_data.len()
        invariant
            k <= cell_data@.len(),
            data@ == cell_data@.take(k as int),
        decreases cell_data@.len() - k,
    {
        proof {
            assert(cell_data@.take(k + 1).drop_last() =~= cell_data@.take(k as int));
        }
        data.push(cell_data[k]);
        k += 1;
    }
    proof {
        assert(cell_data@.take(cell_data@.len() as int) =~= cell_data@);
    }
    Ok(data)
}

/// What the argument-continuity check decides: the executing script's
/// argument must be non-empty, a consumed cell bound to the identity must
/// exist, and that cell's argument must equal the executing one byte for
/// byte.
pub open spec fn args_check_verdict(tx: TxView, script_hash: ScriptHash) -> Result<(), Error> {
    if tx.script_args@.len() == 0 {
        Err(Error::InvalidArgument)
    } else if no_match(tx.inputs@, script_hash) {
        Err(Error::InvalidInput)
    } else if tx.inputs@[first_match_idx(tx.inputs@, script_hash)].args@ != tx.script_args@ {
        Err(Error::InvalidArgument)
    } else {
        Ok(())
    }
}

/// Checks argument continuity between the consumed record cell and the
/// executing script.
pub fn cell_args_check(tx: &TxView, script_hash: ScriptHash) -> (r: Result<(), Error>)
    ensures
        r == args_check_verdict(*tx, script_hash),
{
    if tx.script_args.len() == 0 {
        return Err(Error::InvalidArgument);
    }
    let i = match get_position_of_cell_with_type_script(tx, script_hash, Source::Input) {
        Some(i) => i,
        None => {
            return Err(Error::InvalidInput);
        },
    };
    proof {
        lemma_first_match_unique(tx.inputs@, script_hash, i as int);
    }
    if bytes_eq(&tx.inputs[i].args, &tx.script_args) {
        Ok(())
    } else {
        Err(Error::InvalidArgument)
    }
}

/// Whether `cur` falls in the accepted update window over `last`: more
/// than one round later, at most two rounds later.
pub open spec fn timestamp_in_window(last: u32, cur: u32) -> bool {
    last + TIME_COST_OF_A_ROUND < cur <= last + 2 * TIME_COST_OF_A_ROUND
}

/// Checks the timestamp-progression rule between the consumed and the
/// produced record.
pub fn timestamp_check(last_timestamp: u32, current_timestamp: u32) -> (r: Result<(), Error>)
    ensures
        r == (if timestamp_in_window(last_timestamp, current_timestamp) {
            Result::<(), Error>::Ok(())
        } else {
            Result::<(), Error>::Err(Error::InvalidTimestamp)
        }),
{
    let last = last_timestamp as u64;
    let cur = current_timestamp as u64;
    let round = TIME_COST_OF_A_ROUND as u64;
    if cur <= last + round || cur > last + 2 * round {
        return Err(Error::InvalidTimestamp);
    }
    Ok(())
}

/// The one relative-time-lock value accepted on the consumed record cell:
/// an absolute-timestamp lock one round and one slot interval past `last`.
pub open spec fn required_since_value(last: u32) -> int {
    SINCE_ABSOLUTE_TIMESTAMP_FLAG + last + TIME_COST_OF_A_ROUND + TIME_INFO_UPDATE_INTERVAL
}

/// Every consumed cell bound to `hash` carries exactly the required
/// relative-time-lock value over `last`.
pub open spec fn sinces_match(cells: Seq<CellView>, hash: ScriptHash, last: u32) -> bool {
    forall|i: int|
        0 <= i < cells.len() && cell_matches(#[trigger] cells[i], hash) ==> cells[i].since
            == required_since_value(last)
}

/// Checks that the ledger's own time lock pins the earliest inclusion of
/// the transaction, independent of the self-reported new timestamp.
pub fn input_cell_since_check(tx: &TxView, script_hash: ScriptHash, last_timestamp: u32) -> (r:
    Result<(), Error>)
    ensures
        r == (if sinces_match(tx.inputs@, script_hash, last_timestamp) {
            Result::<(), Error>::Ok(())
        } else {
            Result::<(), Error>::Err(Error::InvalidTimeSince)
        }),
{
    let expected: u64 = SINCE_ABSOLUTE_TIMESTAMP_FLAG + last_timestamp as u64
        + TIME_COST_OF_A_ROUND as u64 + TIME_INFO_UPDATE_INTERVAL as u64;
    proof {
        assert(expected == required_since_value(last_timestamp));
    }
    let mut i: usize = 0;
    while i < tx.inputs.len()
        invariant
            i <= tx.inputs@.len(),
            expected == required_since_value(last_timestamp),
            forall|j: int|
                0 <= j < i && cell_matches(#[trigger] tx.inputs@[j], script_hash)
                    ==> tx.inputs@[j].since == required_since_value(last_timestamp),
        decreases tx.inputs@.len() - i,
    {
        if cell_matches_hash(&tx.inputs[i], &script_hash) {
            if tx.inputs[i].since != expected {
                return Err(Error::InvalidTimeSince);
            }
        }
        i += 1;
    }
    Ok(())
}

} // verus!
