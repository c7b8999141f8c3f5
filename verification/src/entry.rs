use vstd::prelude::*;

use crate::create::create;
use crate::create::create_verdict;
use crate::error::Error;
use crate::helper::args_check_verdict;
use crate::helper::get_position_of_cell_with_type_script;
use crate::ledger::ScriptHash;
use crate::ledger::Source;
use crate::ledger::TxView;
use crate::ledger::cell_matches;
use crate::ledger::count_matching;
use crate::ledger::first_match_idx;
use crate::ledger::lemma_no_match_count_zero;
use crate::ledger::no_match;
use crate::update::update;
use crate::update::update_verdict;

verus! {

/// A transaction is an update exactly when some consumed cell is bound to
/// the executing script's own identity; otherwise it is a creation. The
/// state is recomputed per call, never persisted.
pub open spec fn spec_is_update(tx: TxView, script_hash: ScriptHash) -> bool {
    !no_match(tx.inputs@, script_hash)
}

/// The verdict of the whole validator: the update rules when a consumed
/// cell carries the identity, the create rules otherwise.
pub open spec fn transition_verdict(tx: TxView, script_hash: ScriptHash) -> Result<(), Error> {
    if spec_is_update(tx, script_hash) {
        update_verdict(tx, script_hash)
    } else {
        create_verdict(tx, script_hash)
    }
}

/// The single entry point: classifies the transaction as create or
/// update and applies the matching rule set, accepting it or returning
/// the first rejection encountered.
pub fn validate(tx: &TxView, script_hash: ScriptHash) -> (r: Result<(), Error>)
    ensures
        r == transition_verdict(*tx, script_hash),
{
    let is_update = match get_position_of_cell_with_type_script(tx, script_hash, Source::Input) {
        Some(i) => {
            proof {
                assert(cell_matches(tx.inputs@[i as int], script_hash));
            }
            true
        },
        None => false,
    };
    if is_update {
        update(tx, script_hash)
    } else {
        create(tx, script_hash)
    }
}

/// A transaction that consumes no cell bound to the identity is a
/// creation: the whole verdict is the create verdict, so a well-formed
/// single-output creation with a non-empty argument and a slot index in
/// range is accepted whatever its timestamp.
pub proof fn lemma_create_classification(tx: TxView, script_hash: ScriptHash)
    requires
        no_match(tx.inputs@, script_hash),
    ensures
        transition_verdict(tx, script_hash) == create_verdict(tx, script_hash),
{
}

/// A transaction that consumes a cell bound to the identity is an update:
/// the whole verdict is the update verdict.
pub proof fn lemma_update_classification(tx: TxView, script_hash: ScriptHash, i: int)
    requires
        0 <= i < tx.inputs@.len(),
        cell_matches(tx.inputs@[i], script_hash),
    ensures
        transition_verdict(tx, script_hash) == update_verdict(tx, script_hash),
{
}

/// Cardinality is enforced before anything else: a produced side with
/// zero or several record cells is rejected as `InvalidOutput`, and on the
/// update path a consumed side with zero or several is rejected as
/// `InvalidInput`.
pub proof fn lemma_cardinality_rejection(tx: TxView, script_hash: ScriptHash)
    ensures
        count_matching(tx.outputs@, script_hash) != 1 ==> create_verdict(tx, script_hash) == Err::<
            (),
            Error,
        >(Error::InvalidOutput),
        count_matching(tx.inputs@, script_hash) != 1 ==> update_verdict(tx, script_hash) == Err::<
            (),
            Error,
        >(Error::InvalidInput),
        count_matching(tx.inputs@, script_hash) == 1 && count_matching(tx.outputs@, script_hash)
            != 1 ==> update_verdict(tx, script_hash) == Err::<(), Error>(Error::InvalidOutput),
{
}

/// Argument continuity: an empty executing argument fails a well-formed
/// creation with `InvalidArgument`, and an update whose consumed cell
/// carries an argument other than the executing one fails the same way.
pub proof fn lemma_argument_continuity(tx: TxView, script_hash: ScriptHash)
    ensures
        count_matching(tx.outputs@, script_hash) == 1 && tx.script_args@.len() == 0
            ==> create_verdict(tx, script_hash) == Err::<(), Error>(Error::InvalidArgument),
        count_matching(tx.inputs@, script_hash) == 1 && count_matching(tx.outputs@, script_hash)
            == 1 && tx.inputs@[first_match_idx(tx.inputs@, script_hash)].args@ != tx.script_args@
            ==> update_verdict(tx, script_hash) == Err::<(), Error>(Error::InvalidArgument),
{
    if count_matching(tx.inputs@, script_hash) == 1 {
        if no_match(tx.inputs@, script_hash) {
            lemma_no_match_count_zero(tx.inputs@, script_hash);
        }
        assert(args_check_verdict(tx, script_hash) != Ok::<(), Error>(()) ==> args_check_verdict(
            tx,
            script_hash,
        ) is Err);
    }
}

} // verus!
