use time_info_type_script::entry::validate;
use time_info_type_script::error::Error;
use time_info_type_script::helper::SINCE_ABSOLUTE_TIMESTAMP_FLAG;
use time_info_type_script::ledger::CellView;
use time_info_type_script::ledger::TxView;

fn build_cell_data(index: u8, timestamp: u32) -> Vec<u8> {
    let mut data = vec![index];
    data.extend_from_slice(&timestamp.to_be_bytes());
    data
}

fn consumed_cell(hash: [u8; 32], args: Vec<u8>, data: Vec<u8>, since: u64) -> CellView {
    CellView { type_hash: Some(hash), args, data, since }
}

fn produced_cell(hash: [u8; 32], args: Vec<u8>, data: Vec<u8>) -> CellView {
    CellView { type_hash: Some(hash), args, data, since: 0 }
}

// A baseline well-formed update: consumed record [slot 0, timestamp 1000]
// locked at flag + 1000 + 780, produced record [slot 0, timestamp 1800].
fn base_update_tx(hash: [u8; 32]) -> TxView {
    let args = vec![1u8, 2, 3];
    TxView {
        inputs: vec![consumed_cell(
            hash,
            args.clone(),
            build_cell_data(0, 1000),
            SINCE_ABSOLUTE_TIMESTAMP_FLAG + 1780,
        )],
        outputs: vec![produced_cell(hash, args.clone(), build_cell_data(0, 1800))],
        script_args: args,
    }
}

#[test]
fn test_success_update() {
    let hash = [9u8; 32];
    let tx = base_update_tx(hash);
    assert_eq!(validate(&tx, hash), Ok(()));
}

#[test]
fn test_error_invalid_input() {
    let hash = [9u8; 32];
    let mut tx = base_update_tx(hash);
    let extra = tx.inputs[0].clone();
    tx.inputs.push(extra);
    assert_eq!(validate(&tx, hash), Err(Error::InvalidInput));
}

#[test]
fn test_error_invalid_output() {
    let hash = [9u8; 32];
    let mut tx = base_update_tx(hash);
    let extra = tx.outputs[0].clone();
    tx.outputs.push(extra);
    assert_eq!(validate(&tx, hash), Err(Error::InvalidOutput));
}

#[test]
fn test_error_invalid_cell_data() {
    let hash = [9u8; 32];
    let mut tx = base_update_tx(hash);
    tx.outputs[0].data = Vec::new();
    assert_eq!(validate(&tx, hash), Err(Error::InvalidCellData));
}

#[test]
fn test_error_invalid_since() {
    let hash = [9u8; 32];
    let mut tx = base_update_tx(hash);
    tx.inputs[0].since = 0;
    assert_eq!(validate(&tx, hash), Err(Error::InvalidTimeSince));
}

#[test]
fn test_error_invalid_timestamp() {
    let hash = [9u8; 32];
    let mut tx = base_update_tx(hash);
    tx.outputs[0].data = build_cell_data(0, 1660);
    assert_eq!(validate(&tx, hash), Err(Error::InvalidTimestamp));
}

#[test]
fn test_error_invalid_time_index() {
    let hash = [9u8; 32];
    let mut tx = base_update_tx(hash);
    tx.inputs[0].data = build_cell_data(1, 1000);
    assert_eq!(validate(&tx, hash), Err(Error::InvalidTimeIndex));
}

#[test]
fn test_error_empty_args() {
    let hash = [9u8; 32];
    let mut tx = base_update_tx(hash);
    tx.inputs[0].args = Vec::new();
    tx.outputs[0].args = Vec::new();
    tx.script_args = Vec::new();
    assert_eq!(validate(&tx, hash), Err(Error::InvalidArgument));
}

#[test]
fn test_update_window_boundaries() {
    let hash = [9u8; 32];
    for (timestamp, expected) in [
        (1720u32, Err(Error::InvalidTimestamp)),
        (1721, Ok(())),
        (2440, Ok(())),
        (2441, Err(Error::InvalidTimestamp)),
    ] {
        let mut tx = base_update_tx(hash);
        tx.outputs[0].data = build_cell_data(0, timestamp);
        assert_eq!(validate(&tx, hash), expected);
    }
}

#[test]
fn test_update_since_off_by_one() {
    let hash = [9u8; 32];
    for (since, expected) in [
        (SINCE_ABSOLUTE_TIMESTAMP_FLAG + 1779, Err(Error::InvalidTimeSince)),
        (SINCE_ABSOLUTE_TIMESTAMP_FLAG + 1780, Ok(())),
        (SINCE_ABSOLUTE_TIMESTAMP_FLAG + 1781, Err(Error::InvalidTimeSince)),
    ] {
        let mut tx = base_update_tx(hash);
        tx.inputs[0].since = since;
        assert_eq!(validate(&tx, hash), expected);
    }
}

#[test]
fn test_update_args_mismatch() {
    let hash = [9u8; 32];
    let mut tx = base_update_tx(hash);
    tx.inputs[0].args = vec![4u8, 5];
    assert_eq!(validate(&tx, hash), Err(Error::InvalidArgument));
}

#[test]
fn test_update_without_bound_output() {
    let hash = [9u8; 32];
    let mut tx = base_update_tx(hash);
    tx.outputs[0].type_hash = None;
    assert_eq!(validate(&tx, hash), Err(Error::InvalidOutput));
}

#[test]
fn test_update_slot_change_beats_valid_rest() {
    let hash = [9u8; 32];
    let mut tx = base_update_tx(hash);
    tx.inputs[0].data = build_cell_data(5, 1000);
    tx.outputs[0].data = build_cell_data(6, 1800);
    assert_eq!(validate(&tx, hash), Err(Error::InvalidTimeIndex));
}
