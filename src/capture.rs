//! Capture files: a sequence of records `[u64 offset_ms][u32 len][len bytes]`,
//! both numbers little-endian. Records of length zero carry nothing.
use vstd::prelude::*;
use crate::bytes::{
    le_bytes32, le_bytes64, lemma_le_bytes64_round_trip, lemma_read_le_bytes32, read_u32,
    read_u64, spec_read_u32, spec_read_u64, u32_to_le, u64_to_le,
};

verus! {

/// Length of a record header.
pub const RECORD_HEADER_LEN: usize = 12;

#[derive(Clone, Copy, Debug, PartialEq, Eq, Structural)]
pub enum CaptureError {
    /// A record's bytes run past the end of the capture.
    Truncated,
    /// Fewer bytes than a header are left after the last record.
    TrailingBytes,
}

/// One step of reading a capture at a position.
#[derive(Clone, Copy, Debug, PartialEq, Eq, Structural)]
pub enum RecordScan {
    /// The capture ends exactly here.
    End,
    /// An empty record; reading goes on at `next`.
    Empty { next: usize },
    /// A record whose bytes are `data[start..start + len]`.
    Record { offset_ms: u64, start: usize, len: usize, next: usize },
    /// The header says more bytes than are left.
    Truncated,
    /// Bytes are left, but not enough for a header.
    TrailingBytes,
}

pub open spec fn spec_scan_record(d: Seq<u8>, pos: int) -> RecordScan {
    if pos + 12 > d.len() {
        if pos == d.len() { RecordScan::End } else { RecordScan::TrailingBytes }
    } else {
        let t = spec_read_u64(d, pos).unwrap();
        let len = spec_read_u32(d, pos + 8).unwrap() as int;
        if len == 0 {
            RecordScan::Empty { next: (pos + 12) as usize }
        } else if pos + 12 + len > d.len() {
            RecordScan::Truncated
        } else {
            RecordScan::Record {
                offset_ms: t,
                start: (pos + 12) as usize,
                len: len as usize,
                next: (pos + 12 + len) as usize,
            }
        }
    }
}

/// Reads the record header at `pos`.
pub fn scan_record(data: &[u8], pos: usize) -> (r: RecordScan)
    requires
        pos <= data@.len(),
    ensures
        r == spec_scan_record(data@, pos as int),
{
    if data.len() - pos < RECORD_HEADER_LEN {
        if pos == data.len() {
            return RecordScan::End;
        } else {
            return RecordScan::TrailingBytes;
        }
    }
    let t = match read_u64(data, pos) {
        Some(v) => v,
        None => return RecordScan::TrailingBytes,
    };
    let len = match read_u32(data, pos + 8) {
        Some(v) => v as usize,
        None => return RecordScan::TrailingBytes,
    };
    let start = pos + RECORD_HEADER_LEN;
    if len == 0 {
        RecordScan::Empty { next: start }
    } else if data.len() - start < len {
        RecordScan::Truncated
    } else {
        RecordScan::Record { offset_ms: t, start, len, next: start + len }
    }
}

#[derive(Debug)]
pub struct CaptureRecord {
    pub offset_ms: u64,
    pub data: Vec<u8>,
}

/// The records of `d` from `pos` on, as (offset, bytes) pairs.
pub open spec fn records_from(d: Seq<u8>, pos: int) -> Result<Seq<(u64, Seq<u8>)>, CaptureError>
    decreases d.len() - pos,
{
    if pos < 0 || pos + 12 > d.len() {
        if pos == d.len() {
            Ok(Seq::empty())
        } else {
            Err(CaptureError::TrailingBytes)
        }
    } else {
        let t = spec_read_u64(d, pos).unwrap();
        let len = spec_read_u32(d, pos + 8).unwrap() as int;
        if len == 0 {
            records_from(d, pos + 12)
        } else if pos + 12 + len > d.len() {
            Err(CaptureError::Truncated)
        } else {
            match records_from(d, pos + 12 + len) {
                Ok(rest) => Ok(seq![(t, d.subrange(pos + 12, pos + 12 + len))] + rest),
                Err(e) => Err(e),
            }
        }
    }
}

pub open spec fn prepend_records(
    done: Seq<(u64, Seq<u8>)>,
    rest: Result<Seq<(u64, Seq<u8>)>, CaptureError>,
) -> Result<Seq<(u64, Seq<u8>)>, CaptureError> {
    match rest {
        Ok(r) => Ok(done + r),
        Err(e) => Err(e),
    }
}

pub open spec fn record_view(r: CaptureRecord) -> (u64, Seq<u8>) {
    (r.offset_ms, r.data@)
}

fn copy_range(data: &[u8], start: usize, len: usize) -> (r: Vec<u8>)
    requires
        start + len <= data@.len(),
    ensures
        r@ == data@.subrange(start as int, start + len),
{
    let _n = data.len();
    let mut out: Vec<u8> = Vec::new();
    let mut i: usize = 0;
    while i < len
        invariant
            i <= len,
            start + len <= data@.len(),
            data@.len() <= usize::MAX,
            out@ == data@.subrange(start as int, start + i),
        decreases len - i,
    {
        out.push(data[start + i]);
        i = i + 1;
        assert(out@ =~= data@.subrange(start as int, start + i));
    }
    out
}

/// Splits a whole capture into its non-empty records, in order.
pub fn decode_capture(data: &[u8]) -> (r: Result<Vec<CaptureRecord>, CaptureError>)
    ensures
        match (r, records_from(data@, 0)) {
            (Ok(v), Ok(s)) => v@.map_values(|x: CaptureRecord| record_view(x)) == s,
            (Err(e), Err(s)) => e == s,
            _ => false,
        },
{
    let _n = data.len();
    let mut out: Vec<CaptureRecord> = Vec::new();
    let mut pos: usize = 0;
    assert(out@.map_values(|x: CaptureRecord| record_view(x)) =~= Seq::empty());
    assert(Seq::<(u64, Seq<u8>)>::empty() + Seq::<(u64, Seq<u8>)>::empty() =~= Seq::<(u64, Seq<u8>)>::empty());
    loop
        invariant
            pos <= data@.len(),
            data@.len() <= usize::MAX,
            records_from(data@, 0) == prepend_records(
                out@.map_values(|x: CaptureRecord| record_view(x)),
                records_from(data@, pos as int),
            ),
        decreases data@.len() - pos,
    {
        let ghost done = out@.map_values(|x: CaptureRecord| record_view(x));
        match scan_record(data, pos) {
            RecordScan::End => {
                assert(done + Seq::<(u64, Seq<u8>)>::empty() =~= done);
                return Ok(out);
            },
            RecordScan::TrailingBytes => return Err(CaptureError::TrailingBytes),
            RecordScan::Truncated => return Err(CaptureError::Truncated),
            RecordScan::Empty { next } => {
                pos = next;
            },
            RecordScan::Record { offset_ms, start, len, next } => {
                let bytes = copy_range(data, start, len);
                out.push(CaptureRecord { offset_ms, data: bytes });
                let ghost item = (offset_ms, data@.subrange(start as int, start + len));
                assert(out@.map_values(|x: CaptureRecord| record_view(x)) =~= done.push(item));
                proof {
                    match records_from(data@, next as int) {
                        Ok(rest) => {
                            assert(done + (seq![item] + rest) =~= done.push(item) + rest);
                        },
                        Err(_) => {},
                    }
                }
                pos = next;
            },
        }
    }
}

/// The bytes of one record.
pub open spec fn record_bytes(offset_ms: u64, data: Seq<u8>) -> Seq<u8> {
    le_bytes64(offset_ms) + le_bytes32(data.len() as u32) + data
}

/// Encodes one record.
pub fn encode_record(offset_ms: u64, data: &[u8]) -> (r: Vec<u8>)
    requires
        data@.len() <= u32::MAX,
    ensures
        r@ == record_bytes(offset_ms, data@),
{
    let mut out = u64_to_le(offset_ms);
    let mut len = u32_to_le(data.len() as u32);
    out.append(&mut len);
    let mut i: usize = 0;
    let ghost head = out@;
    while i < data.len()
        invariant
            i <= data@.len(),
            out@ == head + data@.subrange(0, i as int),
        decreases data@.len() - i,
    {
        out.push(data[i]);
        i = i + 1;
        assert(out@ =~= head + data@.subrange(0, i as int));
    }
    assert(data@.subrange(0, data@.len() as int) =~= data@);
    out
}

/// A capture made of one non-empty record reads back as that record.
pub proof fn lemma_record_round_trip(offset_ms: u64, data: Seq<u8>)
    requires
        0 < data.len() <= u32::MAX,
    ensures
        records_from(record_bytes(offset_ms, data), 0) == Ok::<Seq<(u64, Seq<u8>)>, CaptureError>(
            seq![(offset_ms, data)],
        ),
{
    let b = record_bytes(offset_ms, data);
    let h64 = le_bytes64(offset_ms);
    let h32 = le_bytes32(data.len() as u32);
    lemma_le_bytes64_round_trip(offset_ms);
    lemma_read_le_bytes32(data.len() as u32);
    assert(b.len() == 12 + data.len());
    assert(forall|i: int| 0 <= i < 8 ==> b[i] == h64[i]);
    assert(forall|i: int| 0 <= i < 4 ==> b[8 + i] == h32[i]);
    assert(spec_read_u64(b, 0) == spec_read_u64(h64, 0));
    assert(spec_read_u32(b, 8) == spec_read_u32(h32, 0));
    assert(b.subrange(12, 12 + data.len() as int) =~= data);
    assert(records_from(b, 12 + data.len() as int) == Ok::<Seq<(u64, Seq<u8>)>, CaptureError>(
        Seq::empty(),
    ));
    assert(seq![(offset_ms, data)] + Seq::<(u64, Seq<u8>)>::empty() =~= seq![(offset_ms, data)]);
}

/// Time to wait before playing a record, after the one played before it.
pub fn playback_delay(last_offset_ms: u64, offset_ms: u64) -> (r: u64)
    ensures
        r == (if offset_ms >= last_offset_ms { (offset_ms - last_offset_ms) as u64 } else { 0 }),
{
    offset_ms.saturating_sub(last_offset_ms)
}

} // verus!
