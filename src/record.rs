//! The persisted anchor record and its byte format.
//!
//! A blob is one version byte followed by any number of fields. A field is a
//! tag byte, the payload's length as eight little-endian bytes, and the
//! payload. The anchor time is the UTF-8 text of an RFC 3339 timestamp; the
//! interval is a signed 64-bit count of seconds, little-endian. Fields with
//! other tags are skipped, so that later versions can add fields; where a tag
//! occurs twice the later field wins.

use vstd::bytes::{
    lemma_auto_spec_u64_to_from_le_bytes, spec_u64_from_le_bytes, spec_u64_to_le_bytes,
    u64_from_le_bytes, u64_to_le_bytes,
};
use vstd::prelude::*;
use vstd::slice::slice_subrange;
use vstd::utf8::{decode_utf8, encode_utf8, valid_utf8};

verus! {

/// First byte of every blob.
pub const FORMAT_VERSION: u8 = 1;

/// Tag of the anchor-time field.
pub const ANCHOR_TIME_TAG: u8 = 1;

/// Tag of the interval field.
pub const INTERVAL_TAG: u8 = 2;

/// Bytes before a field's payload: the tag and the length.
pub const FIELD_HEADER_LEN: usize = 9;

/// What the record holds: the anchor time's text and the interval in
/// seconds, each possibly unset.
pub type RecordView = (Option<Seq<char>>, Option<i64>);

/// The anchor state as kept in memory and in the store.
#[derive(Debug)]
pub struct AnchorRecord {
    pub start_time_rfc3339: Option<String>,
    pub interval_seconds: Option<i64>,
}

pub open spec fn text_view(t: Option<String>) -> Option<Seq<char>> {
    match t {
        Some(s) => Some(s@),
        None => None,
    }
}

impl View for AnchorRecord {
    type V = RecordView;

    open spec fn view(&self) -> RecordView {
        (text_view(self.start_time_rfc3339), self.interval_seconds)
    }
}

/// The record with both fields unset.
pub open spec fn empty_record() -> RecordView {
    (None, None)
}

pub open spec fn field_bytes(tag: u8, payload: Seq<u8>) -> Seq<u8> {
    seq![tag] + spec_u64_to_le_bytes(payload.len() as u64) + payload
}

pub open spec fn anchor_field_bytes(t: Option<Seq<char>>) -> Seq<u8> {
    match t {
        Some(text) => field_bytes(ANCHOR_TIME_TAG, encode_utf8(text)),
        None => Seq::empty(),
    }
}

pub open spec fn interval_field_bytes(i: Option<i64>) -> Seq<u8> {
    match i {
        Some(v) => field_bytes(INTERVAL_TAG, spec_u64_to_le_bytes(#[verifier::truncate] (v as u64))),
        None => Seq::empty(),
    }
}

/// The blob that stores `v`: the version byte, then the set fields in tag
/// order.
pub open spec fn record_bytes(v: RecordView) -> Seq<u8> {
    seq![FORMAT_VERSION] + anchor_field_bytes(v.0) + interval_field_bytes(v.1)
}

/// The record that the fields in `b` make of `acc`; `None` where `b` is not a
/// whole number of well-formed fields.
pub open spec fn decode_fields(b: Seq<u8>, acc: RecordView) -> Option<RecordView>
    decreases b.len(),
{
    if b.len() == 0 {
        Some(acc)
    } else if b.len() < FIELD_HEADER_LEN {
        None
    } else {
        let len = spec_u64_from_le_bytes(b.subrange(1, 9)) as int;
        if b.len() - FIELD_HEADER_LEN < len {
            None
        } else {
            let payload = b.subrange(9, 9 + len);
            let rest = b.subrange(9 + len, b.len() as int);
            if b[0] == ANCHOR_TIME_TAG {
                if valid_utf8(payload) {
                    decode_fields(rest, (Some(decode_utf8(payload)), acc.1))
                } else {
                    None
                }
            } else if b[0] == INTERVAL_TAG {
                if len == 8 {
                    decode_fields(
                        rest,
                        (acc.0, Some(#[verifier::truncate] (spec_u64_from_le_bytes(payload) as i64))),
                    )
                } else {
                    None
                }
            } else {
                decode_fields(rest, acc)
            }
        }
    }
}

/// The record that blob `b` holds; `None` where `b` is empty, carries
/// another version, or its fields are malformed.
pub open spec fn decode_record(b: Seq<u8>) -> Option<RecordView> {
    if b.len() >= 1 && b[0] == FORMAT_VERSION {
        decode_fields(b.subrange(1, b.len() as int), empty_record())
    } else {
        None
    }
}

/// Relies on std's `String::from_utf8`, which accepts exactly the valid
/// UTF-8 byte sequences and keeps the characters they encode.
#[verifier::external_body]
fn string_from_utf8(b: &[u8]) -> (r: Option<String>)
    ensures
        r is Some <==> valid_utf8(b@),
        r matches Some(s) ==> s@ == decode_utf8(b@),
{
    String::from_utf8(b.to_vec()).ok()
}

fn push_field(out: &mut Vec<u8>, tag: u8, payload: &[u8])
    ensures
        final(out)@ == old(out)@ + field_bytes(tag, payload@),
{
    out.push(tag);
    let len = u64_to_le_bytes(payload.len() as u64);
    out.extend_from_slice(len.as_slice());
    out.extend_from_slice(payload);
    assert(final(out)@ =~= old(out)@ + field_bytes(tag, payload@));
}

/// The blob that stores `rec`.
pub fn encode_record(rec: &AnchorRecord) -> (r: Vec<u8>)
    ensures
        r@ == record_bytes(rec@),
{
    let mut out: Vec<u8> = Vec::new();
    out.push(FORMAT_VERSION);
    match &rec.start_time_rfc3339 {
        Some(text) => {
            push_field(&mut out, ANCHOR_TIME_TAG, text.as_str().as_bytes());
        },
        None => {},
    }
    match rec.interval_seconds {
        Some(v) => {
            let payload = u64_to_le_bytes(v as u64);
            push_field(&mut out, INTERVAL_TAG, payload.as_slice());
        },
        None => {},
    }
    assert(out@ =~= record_bytes(rec@));
    out
}

/// Why a blob could not be read as a record.
#[derive(Clone, Copy, Debug, PartialEq, Eq, Structural)]
pub enum DecodeError {
    /// The blob is empty, carries another version, or a field is malformed.
    Corrupt,
}

/// The record that blob `bytes` holds.
pub fn decode_record_bytes(bytes: &[u8]) -> (r: Result<AnchorRecord, DecodeError>)
    ensures
        match decode_record(bytes@) {
            Some(v) => r matches Ok(rec) && rec@ == v,
            None => r == Err::<AnchorRecord, DecodeError>(DecodeError::Corrupt),
        },
{
    let n = bytes.len();
    if n == 0 || bytes[0] != FORMAT_VERSION {
        return Err(DecodeError::Corrupt);
    }
    let mut pos: usize = 1;
    let mut text: Option<String> = None;
    let mut interval: Option<i64> = None;
    while pos < n
        invariant
            1 <= pos <= n,
            n == bytes@.len(),
            bytes@[0] == FORMAT_VERSION,
            decode_record(bytes@) == decode_fields(
                bytes@.subrange(pos as int, n as int),
                (text_view(text), interval),
            ),
        decreases n - pos,
    {
        let ghost b = bytes@.subrange(pos as int, n as int);
        if n - pos < FIELD_HEADER_LEN {
            return Err(DecodeError::Corrupt);
        }
        let tag = bytes[pos];
        let len = u64_from_le_bytes(slice_subrange(bytes, pos + 1, pos + 9));
        assert(b.subrange(1, 9) =~= bytes@.subrange(pos + 1, pos + 9));
        if len > (n - pos - FIELD_HEADER_LEN) as u64 {
            return Err(DecodeError::Corrupt);
        }
        let start = pos + FIELD_HEADER_LEN;
        let end = start + len as usize;
        let payload = slice_subrange(bytes, start, end);
        assert(b.subrange(9, 9 + len) =~= payload@);
        assert(b.subrange(9 + len, b.len() as int) =~= bytes@.subrange(end as int, n as int));
        if tag == ANCHOR_TIME_TAG {
            match string_from_utf8(payload) {
                Some(s) => {
                    text = Some(s);
                },
                None => {
                    return Err(DecodeError::Corrupt);
                },
            }
        } else if tag == INTERVAL_TAG {
            if len != 8 {
                return Err(DecodeError::Corrupt);
            }
            interval = Some(u64_from_le_bytes(payload) as i64);
        }
        pos = end;
    }
    assert(bytes@.subrange(pos as int, n as int).len() == 0);
    Ok(AnchorRecord { start_time_rfc3339: text, interval_seconds: interval })
}

proof fn lemma_decode_field(tag: u8, payload: Seq<u8>, rest: Seq<u8>, acc: RecordView)
    requires
        payload.len() <= u64::MAX,
    ensures
        ({
            let b = field_bytes(tag, payload) + rest;
            &&& b.len() >= FIELD_HEADER_LEN
            &&& spec_u64_from_le_bytes(b.subrange(1, 9)) as int == payload.len()
            &&& b.len() - FIELD_HEADER_LEN >= payload.len()
            &&& b[0] == tag
            &&& b.subrange(9, 9 + payload.len() as int) == payload
            &&& b.subrange(9 + payload.len() as int, b.len() as int) == rest
        }),
{
    lemma_auto_spec_u64_to_from_le_bytes();
    let b = field_bytes(tag, payload) + rest;
    let len_bytes = spec_u64_to_le_bytes(payload.len() as u64);
    assert(b.subrange(1, 9) =~= len_bytes);
    assert(b.subrange(9, 9 + payload.len() as int) =~= payload);
    assert(b.subrange(9 + payload.len() as int, b.len() as int) =~= rest);
}

/// Reading back the blob that stores a record gives that record, whichever
/// of its fields are set.
pub proof fn lemma_load_after_save(v: RecordView)
    requires
        v.0 matches Some(t) ==> encode_utf8(t).len() <= u64::MAX,
    ensures
        decode_record(record_bytes(v)) == Some(v),
{
    lemma_auto_spec_u64_to_from_le_bytes();
    let b = record_bytes(v);
    let fields = anchor_field_bytes(v.0) + interval_field_bytes(v.1);
    assert(b.subrange(1, b.len() as int) =~= fields);
    let tail = interval_field_bytes(v.1);
    let acc1: RecordView = (v.0, None);
    match v.0 {
        Some(t) => {
            let payload = encode_utf8(t);
            vstd::utf8::encode_utf8_valid_utf8(t);
            vstd::utf8::encode_utf8_decode_utf8(t);
            lemma_decode_field(ANCHOR_TIME_TAG, payload, tail, empty_record());
            assert(decode_fields(fields, empty_record()) == decode_fields(tail, acc1));
        },
        None => {
            assert(fields =~= tail);
        },
    }
    match v.1 {
        Some(i) => {
            let u = #[verifier::truncate] (i as u64);
            let payload = spec_u64_to_le_bytes(u);
            lemma_decode_field(INTERVAL_TAG, payload, Seq::empty(), acc1);
            assert(tail =~= field_bytes(INTERVAL_TAG, payload) + Seq::empty());
            assert((#[verifier::truncate] ((#[verifier::truncate] (i as u64)) as i64)) == i)
                by (bit_vector);
            assert(decode_fields(tail, acc1) == decode_fields(Seq::<u8>::empty(), v));
        },
        None => {},
    }
}

/// An empty blob is no record, whatever follows from it.
pub proof fn lemma_empty_blob_is_corrupt()
    ensures
        decode_record(Seq::<u8>::empty()) is None,
{
}

proof fn lemma_decode_fields_concat(x: Seq<u8>, y: Seq<u8>, acc: RecordView)
    requires
        decode_fields(x, acc) is Some,
    ensures
        decode_fields(x + y, acc) == decode_fields(y, decode_fields(x, acc)->0),
    decreases x.len(),
{
    let b = x + y;
    if x.len() == 0 {
        assert(b =~= y);
    } else {
        let len = spec_u64_from_le_bytes(x.subrange(1, 9)) as int;
        assert(b.subrange(1, 9) =~= x.subrange(1, 9));
        assert(b.subrange(9, 9 + len) =~= x.subrange(9, 9 + len));
        let rest = x.subrange(9 + len, x.len() as int);
        assert(b.subrange(9 + len, b.len() as int) =~= rest + y);
        let payload = x.subrange(9, 9 + len);
        if x[0] == ANCHOR_TIME_TAG {
            lemma_decode_fields_concat(rest, y, (Some(decode_utf8(payload)), acc.1));
        } else if x[0] == INTERVAL_TAG {
            lemma_decode_fields_concat(
                rest,
                y,
                (acc.0, Some(#[verifier::truncate] (spec_u64_from_le_bytes(payload) as i64))),
            );
        } else {
            lemma_decode_fields_concat(rest, y, acc);
        }
    }
}

/// A field with a tag that this version does not know, appended to a record's
/// blob, leaves the record that the blob holds unchanged.
pub proof fn lemma_unknown_field_skipped(b: Seq<u8>, tag: u8, payload: Seq<u8>)
    requires
        decode_record(b) is Some,
        tag != ANCHOR_TIME_TAG,
        tag != INTERVAL_TAG,
        payload.len() <= u64::MAX,
    ensures
        decode_record(b + field_bytes(tag, payload)) == decode_record(b),
{
    let f = field_bytes(tag, payload);
    let b2 = b + f;
    let v = decode_record(b)->0;
    assert(b2.subrange(1, b2.len() as int) =~= b.subrange(1, b.len() as int) + f);
    lemma_decode_fields_concat(b.subrange(1, b.len() as int), f, empty_record());
    lemma_decode_field(tag, payload, Seq::empty(), v);
    assert(f + Seq::<u8>::empty() =~= f);
    assert(decode_fields(Seq::<u8>::empty(), v) == Some(v));
}

} // verus!
