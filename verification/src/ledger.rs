use vstd::prelude::*;

verus! {

/// The fixed-size hash that identifies which validator governs a cell.
pub type ScriptHash = [u8; 32];

/// Which side of the transaction a query walks over.
#[derive(Clone, Copy, Debug, PartialEq, Eq, Structural)]
pub enum Source {
    /// The consumed cells of the transaction.
    Input,
    /// The produced cells of the transaction.
    Output,
}

/// A read-only view of one cell of the transaction.
#[derive(Clone)]
pub struct CellView {
    /// Hash of the bound script that governs the cell, if it has one.
    pub type_hash: Option<ScriptHash>,
    /// Argument bytes of the bound script; meaningful only with `type_hash`.
    pub args: Vec<u8>,
    /// The cell's data payload.
    pub data: Vec<u8>,
    /// The relative-time-lock value; meaningful only for consumed cells,
    /// zero when the transaction sets none.
    pub since: u64,
}

/// A read-only view of the ambient transaction, supplied by the ledger
/// runtime once per validation call and never mutated here.
pub struct TxView {
    /// The consumed cells, in transaction order.
    pub inputs: Vec<CellView>,
    /// The produced cells, in transaction order.
    pub outputs: Vec<CellView>,
    /// Argument bytes of the script instance currently executing.
    pub script_args: Vec<u8>,
}

/// The cells of `tx` on the side that `source` names.
pub open spec fn cells_in(tx: TxView, source: Source) -> Seq<CellView> {
    match source {
        Source::Input => tx.inputs@,
        Source::Output => tx.outputs@,
    }
}

/// Whether `cell` is bound to the script identity `hash`.
pub open spec fn cell_matches(cell: CellView, hash: ScriptHash) -> bool {
    cell.type_hash is Some && cell.type_hash.unwrap()@ == hash@
}

/// How many cells of `cells` are bound to `hash`.
pub open spec fn count_matching(cells: Seq<CellView>, hash: ScriptHash) -> nat
    decreases cells.len(),
{
    if cells.len() == 0 {
        0
    } else {
        count_matching(cells.drop_last(), hash) + if cell_matches(cells.last(), hash) {
            1nat
        } else {
            0nat
        }
    }
}

/// Position `i` holds the first cell of `cells` bound to `hash`.
pub open spec fn is_first_match(cells: Seq<CellView>, hash: ScriptHash, i: int) -> bool {
    &&& 0 <= i < cells.len()
    &&& cell_matches(cells[i], hash)
    &&& forall|j: int| 0 <= j < i ==> !cell_matches(#[trigger] cells[j], hash)
}

/// Some cell of `cells` is bound to `hash`.
pub open spec fn has_match(cells: Seq<CellView>, hash: ScriptHash) -> bool {
    exists|i: int| is_first_match(cells, hash, i)
}

/// No cell of `cells` is bound to `hash`.
pub open spec fn no_match(cells: Seq<CellView>, hash: ScriptHash) -> bool {
    forall|i: int| 0 <= i < cells.len() ==> !cell_matches(#[trigger] cells[i], hash)
}

/// The position of the first cell of `cells` bound to `hash`; meaningful
/// only when such a cell exists.
pub open spec fn first_match_idx(cells: Seq<CellView>, hash: ScriptHash) -> int {
    choose|i: int| is_first_match(cells, hash, i)
}

/// The first match is at one position only, so a found position pins
/// `first_match_idx` down.
pub proof fn lemma_first_match_unique(cells: Seq<CellView>, hash: ScriptHash, i: int)
    requires
        is_first_match(cells, hash, i),
    ensures
        has_match(cells, hash),
        first_match_idx(cells, hash) == i,
{
    let k = first_match_idx(cells, hash);
    assert(is_first_match(cells, hash, k));
    if k < i {
        assert(!cell_matches(cells[k], hash));
    }
    if i < k {
        assert(!cell_matches(cells[i], hash));
    }
}

/// A side without matches counts zero matching cells.
pub proof fn lemma_no_match_count_zero(cells: Seq<CellView>, hash: ScriptHash)
    requires
        no_match(cells, hash),
    ensures
        count_matching(cells, hash) == 0,
    decreases cells.len(),
{
    if cells.len() > 0 {
        assert(no_match(cells.drop_last(), hash));
        lemma_no_match_count_zero(cells.drop_last(), hash);
        assert(!cell_matches(cells.last(), hash));
    }
}

/// A side that counts zero matching cells has no match.
pub proof fn lemma_count_zero_no_match(cells: Seq<CellView>, hash: ScriptHash)
    requires
        count_matching(cells, hash) == 0,
    ensures
        no_match(cells, hash),
    decreases cells.len(),
{
    if cells.len() > 0 {
        lemma_count_zero_no_match(cells.drop_last(), hash);
        assert forall|i: int| 0 <= i < cells.len() implies !cell_matches(
            #[trigger] cells[i],
            hash,
        ) by {
            if i < cells.len() - 1 {
                assert(cells.drop_last()[i] == cells[i]);
            } else {
                assert(cells[i] == cells.last());
            }
        }
    }
}

/// A side that counts at least one matching cell has a first match, and
/// `first_match_idx` names it.
pub proof fn lemma_count_pos_has_match(cells: Seq<CellView>, hash: ScriptHash)
    requires
        count_matching(cells, hash) > 0,
    ensures
        has_match(cells, hash),
        is_first_match(cells, hash, first_match_idx(cells, hash)),
    decreases cells.len(),
{
    let prefix = cells.drop_last();
    if count_matching(prefix, hash) > 0 {
        lemma_count_pos_has_match(prefix, hash);
        let i = first_match_idx(prefix, hash);
        assert(prefix[i] == cells[i]);
        assert forall|j: int| 0 <= j < i implies !cell_matches(#[trigger] cells[j], hash) by {
            assert(prefix[j] == cells[j]);
        }
        assert(is_first_match(cells, hash, i));
    } else {
        lemma_count_zero_no_match(prefix, hash);
        assert(cell_matches(cells.last(), hash));
        assert(cells[cells.len() - 1] == cells.last());
        assert forall|j: int| 0 <= j < cells.len() - 1 implies !cell_matches(
            #[trigger] cells[j],
            hash,
        ) by {
            assert(prefix[j] == cells[j]);
        }
        assert(is_first_match(cells, hash, cells.len() - 1));
    }
    assert(is_first_match(cells, hash, first_match_idx(cells, hash)));
}

/// Whether two hashes are the same identity.
pub fn hash_eq(a: &ScriptHash, b: &ScriptHash) -> (r: bool)
    ensures
        r <==> a@ == b@,
{
    let mut i: usize = 0;
    while i < 32
        invariant
            i <= 32,
            forall|j: int| 0 <= j < i ==> a@[j] == b@[j],
        decreases 32 - i,
    {
        if a[i] != b[i] {
            return false;
        }
        i += 1;
    }
    proof {
        assert(a@ =~= b@);
    }
    true
}

/// Whether two byte strings are equal byte for byte.
pub fn bytes_eq(a: &Vec<u8>, b: &Vec<u8>) -> (r: bool)
    ensures
        r <==> a@ == b@,
{
    if a.len() != b.len() {
        return false;
    }
    let mut i: usize = 0;
    while i < a.len()
        invariant
            i <= a@.len(),
            a@.len() == b@.len(),
            forall|j: int| 0 <= j < i ==> a@[j] == b@[j],
        decreases a@.len() - i,
    {
        if a[i] != b[i] {
            return false;
        }
        i += 1;
    }
    proof {
        assert(a@ =~= b@);
    }
    true
}

/// Whether `cell` is bound to the script identity `hash`.
pub fn cell_matches_hash(cell: &CellView, hash: &ScriptHash) -> (r: bool)
    ensures
        r == cell_matches(*cell, *hash),
{
    match &cell.type_hash {
        Some(h) => hash_eq(h, hash),
        None => false,
    }
}

} // verus!
