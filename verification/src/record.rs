use vstd::prelude::*;

use crate::error::Error;
use crate::helper::TIME_INFO_CELL_DATA_LEN;

verus! {

/// The on-chain record: a slot index and a self-reported timestamp,
/// packed into exactly five bytes (slot, then the timestamp big-endian).
#[derive(Clone, Copy, Debug, PartialEq, Eq, Structural)]
pub struct Record {
    /// Which of the twelve time slots this record instance represents.
    pub slot_index: u8,
    /// Seconds since the epoch, self-reported by whoever updates the cell.
    pub timestamp: u32,
}

/// The timestamp held big-endian in bytes one to four of a record payload.
pub open spec fn spec_timestamp_of(data: Seq<u8>) -> u32
    recommends
        data.len() == TIME_INFO_CELL_DATA_LEN,
{
    (((data[1] as u32) << 24) | ((data[2] as u32) << 16) | ((data[3] as u32) << 8) | (
    data[4] as u32))
}

/// What decoding a payload yields: the record for a five-byte payload,
/// `InvalidCellData` for any other length.
pub open spec fn spec_decode(data: Seq<u8>) -> Result<Record, Error> {
    if data.len() == TIME_INFO_CELL_DATA_LEN {
        Ok(Record { slot_index: data[0], timestamp: spec_timestamp_of(data) })
    } else {
        Err(Error::InvalidCellData)
    }
}

/// The five-byte payload that holds `r`.
pub open spec fn spec_encode(r: Record) -> Seq<u8> {
    seq![
        r.slot_index,
        ((r.timestamp >> 24) & 0xff) as u8,
        ((r.timestamp >> 16) & 0xff) as u8,
        ((r.timestamp >> 8) & 0xff) as u8,
        (r.timestamp & 0xff) as u8,
    ]
}

/// Recombining the four big-endian bytes of a timestamp gives it back.
pub proof fn lemma_timestamp_bytes_round_trip(t: u32)
    ensures
        ((((((t >> 24) & 0xff) as u8) as u32) << 24) | (((((t >> 16) & 0xff) as u8) as u32) << 16)
            | (((((t >> 8) & 0xff) as u8) as u32) << 8) | (((t & 0xff) as u8) as u32)) == t,
{
    assert(((((((t >> 24) & 0xff) as u8) as u32) << 24) | (((((t >> 16) & 0xff) as u8) as u32)
        << 16) | (((((t >> 8) & 0xff) as u8) as u32) << 8) | (((t & 0xff) as u8) as u32)) == t)
        by (bit_vector);
}

/// Decoding an encoded record gives the record back, for every slot index
/// and every timestamp.
pub proof fn lemma_record_round_trip(r: Record)
    ensures
        spec_decode(spec_encode(r)) == Ok::<Record, Error>(r),
{
    let data = spec_encode(r);
    assert(data.len() == 5);
    assert(data[0] == r.slot_index);
    lemma_timestamp_bytes_round_trip(r.timestamp);
    assert(spec_timestamp_of(data) == r.timestamp);
}

impl Record {
    /// Packs the record into its five-byte payload.
    pub fn encode(&self) -> (data: Vec<u8>)
        ensures
            data@ == spec_encode(*self),
    {
        let mut data: Vec<u8> = Vec::new();
        data.push(self.slot_index);
        data.push(((self.timestamp >> 24) & 0xff) as u8);
        data.push(((self.timestamp >> 16) & 0xff) as u8);
        data.push(((self.timestamp >> 8) & 0xff) as u8);
        data.push((self.timestamp & 0xff) as u8);
        proof {
            assert(data@ =~= spec_encode(*self));
        }
        data
    }

    /// Unpacks a payload; any length other than five bytes is a decode
    /// failure, and no further validation happens here.
    pub fn decode(data: &Vec<u8>) -> (r: Result<Record, Error>)
        ensures
            r == spec_decode(data@),
    {
        if data.len() != TIME_INFO_CELL_DATA_LEN as usize {
            return Err(Error::InvalidCellData);
        }
        Ok(Record { slot_index: data[0], timestamp: get_timestamp_from_cell_data(data) })
    }

    /// The slot index of the record.
    pub fn slot_of(&self) -> (s: u8)
        ensures
            s == self.slot_index,
    {
        self.slot_index
    }

    /// The timestamp of the record.
    pub fn timestamp_of(&self) -> (t: u32)
        ensures
            t == self.timestamp,
    {
        self.timestamp
    }
}

/// Reads the big-endian timestamp out of a five-byte record payload.
pub fn get_timestamp_from_cell_data(cell_data: &Vec<u8>) -> (t: u32)
    requires
        cell_data@.len() == TIME_INFO_CELL_DATA_LEN,
    ensures
        t == spec_timestamp_of(cell_data@),
{
    ((cell_data[1] as u32) << 24) | ((cell_data[2] as u32) << 16) | ((cell_data[3] as u32) << 8) | (
    cell_data[4] as u32)
}

} // verus!
