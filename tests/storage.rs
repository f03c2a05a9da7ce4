use marathon_clock::calendar::UtcInstant;
use marathon_clock::record::{decode_record_bytes, encode_record, AnchorRecord, DecodeError};
use marathon_clock::storage::{Storage, StorageError, StoreRead};

fn blob_of(text: Option<&str>, interval: Option<i64>) -> Vec<u8> {
    let rec = AnchorRecord {
        start_time_rfc3339: text.map(|t| t.to_string()),
        interval_seconds: interval,
    };
    encode_record(&rec)
}

#[test]
fn empty_record_bytes() {
    assert_eq!(blob_of(None, None), vec![1]);
}

#[test]
fn interval_record_bytes() {
    assert_eq!(
        blob_of(None, Some(90)),
        vec![1, 2, 8, 0, 0, 0, 0, 0, 0, 0, 90, 0, 0, 0, 0, 0, 0, 0]
    );
}

#[test]
fn anchor_record_bytes() {
    assert_eq!(
        blob_of(Some("ab"), None),
        vec![1, 1, 2, 0, 0, 0, 0, 0, 0, 0, b'a', b'b']
    );
}

#[test]
fn records_round_trip() {
    let cases: Vec<(Option<&str>, Option<i64>)> = vec![
        (None, None),
        (Some("2022-05-01T00:00:00+00:00"), None),
        (None, Some(0)),
        (None, Some(-5)),
        (None, Some(i64::MAX)),
        (Some("2023-07-02T23:59:59.5+09:00"), Some(90)),
        (Some(""), Some(i64::MIN)),
        (Some("日時"), Some(1)),
    ];
    for (text, interval) in cases {
        let back = decode_record_bytes(&blob_of(text, interval)).unwrap();
        assert_eq!(back.start_time_rfc3339.as_deref(), text);
        assert_eq!(back.interval_seconds, interval);
    }
}

#[test]
fn zero_length_blob_is_corrupt() {
    assert_eq!(decode_record_bytes(&[]).unwrap_err(), DecodeError::Corrupt);
    let mut s = Storage::new(StoreRead::KeyNotFound).unwrap().0;
    assert_eq!(s.load_from_storage(StoreRead::Found(vec![])), Err(StorageError::CorruptState));
}

#[test]
fn malformed_blobs_are_corrupt() {
    let bad: Vec<Vec<u8>> = vec![
        vec![2],
        vec![0, 2, 8, 0, 0, 0, 0, 0, 0, 0, 90, 0, 0, 0, 0, 0, 0, 0],
        vec![1, 2, 8, 0, 0, 0],
        vec![1, 2, 8, 0, 0, 0, 0, 0, 0, 0, 90, 0, 0],
        vec![1, 2, 4, 0, 0, 0, 0, 0, 0, 0, 90, 0, 0, 0],
        vec![1, 1, 1, 0, 0, 0, 0, 0, 0, 0, 0xff],
        vec![1, 9, 255, 255, 255, 255, 255, 255, 255, 255],
    ];
    for b in bad {
        assert_eq!(decode_record_bytes(&b).unwrap_err(), DecodeError::Corrupt, "{:?}", b);
    }
}

#[test]
fn unknown_fields_are_skipped() {
    let mut b = blob_of(Some("x"), None);
    b.extend_from_slice(&[7, 3, 0, 0, 0, 0, 0, 0, 0, 1, 2, 3]);
    b.extend_from_slice(&[2, 8, 0, 0, 0, 0, 0, 0, 0, 44, 1, 0, 0, 0, 0, 0, 0]);
    let rec = decode_record_bytes(&b).unwrap();
    assert_eq!(rec.start_time_rfc3339.as_deref(), Some("x"));
    assert_eq!(rec.interval_seconds, Some(300));
}

#[test]
fn later_field_wins() {
    let mut b = blob_of(None, Some(5));
    b.extend_from_slice(&[2, 8, 0, 0, 0, 0, 0, 0, 0, 6, 0, 0, 0, 0, 0, 0, 0]);
    assert_eq!(decode_record_bytes(&b).unwrap().interval_seconds, Some(6));
}

#[test]
fn missing_key_writes_empty_record() {
    let (s, write) = Storage::new(StoreRead::KeyNotFound).unwrap();
    assert_eq!(write, Some(vec![1]));
    assert_eq!(s.get_start_time(), None);
    assert_eq!(s.get_start_interval(), None);
}

#[test]
fn failed_read_is_reported() {
    assert_eq!(Storage::new(StoreRead::Failed).err(), Some(StorageError::StoreReadFailed));
    let (mut s, _) = Storage::new(StoreRead::KeyNotFound).unwrap();
    assert_eq!(s.load_from_storage(StoreRead::Failed), Err(StorageError::StoreReadFailed));
}

#[test]
fn corrupt_blob_is_reported_on_open() {
    assert_eq!(Storage::new(StoreRead::Found(vec![])).err(), Some(StorageError::CorruptState));
    assert_eq!(Storage::new(StoreRead::Found(vec![1, 2])).err(), Some(StorageError::CorruptState));
}

#[test]
fn start_time_round_trips_at_range_ends() {
    let first = UtcInstant { secs: -62_167_219_200, nanos: 0 };
    let last = UtcInstant { secs: 253_402_300_799, nanos: 999_999_999 };
    for t in [first, last] {
        let (mut s, _) = Storage::new(StoreRead::KeyNotFound).unwrap();
        let blob = s.set_start_time(t);
        let (back, _) = Storage::new(StoreRead::Found(blob)).unwrap();
        assert_eq!(back.get_start_time(), Some(t));
    }
}

#[test]
fn corrupt_blob_leaves_state() {
    let (mut s, _) = Storage::new(StoreRead::Found(blob_of(None, Some(42)))).unwrap();
    assert_eq!(s.get_start_interval(), Some(42));
    assert_eq!(s.load_from_storage(StoreRead::Found(vec![1, 5])), Err(StorageError::CorruptState));
    assert_eq!(s.get_start_interval(), Some(42));
}

#[test]
fn unset_anchor_reads_as_unset() {
    let (s, _) = Storage::new(StoreRead::Found(blob_of(None, Some(10)))).unwrap();
    assert_eq!(s.get_start_time(), None);
    assert_eq!(s.get_start_interval(), Some(10));
}

#[test]
fn start_time_is_stored_as_rfc3339() {
    let (mut s, _) = Storage::new(StoreRead::KeyNotFound).unwrap();
    let t = UtcInstant { secs: 1_651_363_200, nanos: 0 };
    let blob = s.set_start_time(t);
    let rec = decode_record_bytes(&blob).unwrap();
    assert_eq!(rec.start_time_rfc3339.as_deref(), Some("2022-05-01T00:00:00+00:00"));
    assert_eq!(s.get_start_time(), Some(t));
}

#[test]
fn start_time_keeps_nanoseconds() {
    let (mut s, _) = Storage::new(StoreRead::KeyNotFound).unwrap();
    let t = UtcInstant { secs: -86_401, nanos: 123_456_789 };
    let blob = s.set_start_time(t);
    let (back, write) = Storage::new(StoreRead::Found(blob)).unwrap();
    assert_eq!(write, None);
    assert_eq!(back.get_start_time(), Some(t));
}

#[test]
fn stored_text_with_offset_is_read() {
    let (s, _) = Storage::new(StoreRead::Found(blob_of(Some("2022-05-01T09:00:00+09:00"), None))).unwrap();
    assert_eq!(s.get_start_time(), Some(UtcInstant { secs: 1_651_363_200, nanos: 0 }));
    let (s, _) = Storage::new(StoreRead::Found(blob_of(Some("not a time"), None))).unwrap();
    assert_eq!(s.get_start_time(), None);
}

#[test]
fn negative_interval_is_refused() {
    let (mut s, _) = Storage::new(StoreRead::Found(blob_of(None, Some(7)))).unwrap();
    assert_eq!(s.set_start_interval(-1), Err(StorageError::InvalidInterval));
    assert_eq!(s.get_start_interval(), Some(7));
}

#[test]
fn setters_persist_whole_record() {
    let (mut s, _) = Storage::new(StoreRead::KeyNotFound).unwrap();
    let blob = s.set_start_interval(90).unwrap();
    assert_eq!(blob, blob_of(None, Some(90)));
    let blob = s.set_start_time(UtcInstant { secs: 0, nanos: 0 });
    let (back, _) = Storage::new(StoreRead::Found(blob.clone())).unwrap();
    assert_eq!(back.get_start_interval(), Some(90));
    assert_eq!(back.get_start_time(), Some(UtcInstant { secs: 0, nanos: 0 }));
    assert_eq!(back.save(), blob);
}

#[test]
fn zero_interval_is_accepted() {
    let (mut s, _) = Storage::new(StoreRead::KeyNotFound).unwrap();
    assert!(s.set_start_interval(0).is_ok());
    assert_eq!(s.get_start_interval(), Some(0));
}
