use time_info_type_script::error::Error;
use time_info_type_script::helper::timestamp_check;
use time_info_type_script::record::Record;
use time_info_type_script::record::get_timestamp_from_cell_data;

#[test]
fn test_record_round_trip() {
    for (slot_index, timestamp) in [
        (0u8, 0u32),
        (1, 1000),
        (11, 1_700_000_000),
        (12, 720),
        (255, u32::MAX),
    ] {
        let record = Record { slot_index, timestamp };
        let encoded = record.encode();
        assert_eq!(encoded.len(), 5);
        assert_eq!(Record::decode(&encoded), Ok(record));
    }
}

#[test]
fn test_encode_exact_bytes() {
    let record = Record { slot_index: 1, timestamp: 0x0102_0304 };
    assert_eq!(record.encode(), vec![1u8, 1, 2, 3, 4]);
    let record = Record { slot_index: 0, timestamp: 1000 };
    assert_eq!(record.encode(), vec![0u8, 0, 0, 3, 232]);
}

#[test]
fn test_decode_wrong_length() {
    assert_eq!(Record::decode(&Vec::new()), Err(Error::InvalidCellData));
    assert_eq!(Record::decode(&vec![0u8; 4]), Err(Error::InvalidCellData));
    assert_eq!(Record::decode(&vec![0u8; 6]), Err(Error::InvalidCellData));
}

#[test]
fn test_get_timestamp_exact() {
    assert_eq!(get_timestamp_from_cell_data(&vec![9u8, 0, 0, 3, 232]), 1000);
    assert_eq!(get_timestamp_from_cell_data(&vec![0u8, 255, 255, 255, 255]), u32::MAX);
    assert_eq!(get_timestamp_from_cell_data(&vec![3u8, 0, 0, 0, 0]), 0);
}

#[test]
fn test_record_accessors() {
    let record = Record { slot_index: 4, timestamp: 77 };
    assert_eq!(record.slot_of(), 4);
    assert_eq!(record.timestamp_of(), 77);
}

#[test]
fn test_timestamp_check_boundaries() {
    assert_eq!(timestamp_check(1000, 1720), Err(Error::InvalidTimestamp));
    assert_eq!(timestamp_check(1000, 1721), Ok(()));
    assert_eq!(timestamp_check(1000, 2440), Ok(()));
    assert_eq!(timestamp_check(1000, 2441), Err(Error::InvalidTimestamp));
    assert_eq!(timestamp_check(u32::MAX, u32::MAX), Err(Error::InvalidTimestamp));
}

#[test]
fn test_error_codes() {
    assert_eq!(Error::ItemMissing.code(), 2);
    assert_eq!(Error::InvalidArgument.code(), 54);
    assert_eq!(Error::InvalidCellData.code(), 55);
    assert_eq!(Error::InvalidInput.code(), 56);
    assert_eq!(Error::InvalidOutput.code(), 57);
    assert_eq!(Error::InvalidTimeSince.code(), 58);
    assert_eq!(Error::InvalidTimestamp.code(), 59);
    assert_eq!(Error::InvalidTimeIndex.code(), 60);
}
