//! The anchor state held in memory and persisted, through the caller, in a
//! byte store under one key.
//!
//! The store itself lies outside the library: reads are handed in as
//! [`StoreRead`] values, and every operation that changes the state returns
//! the blob that the caller writes back.

use vstd::prelude::*;

use crate::calendar::{UtcInstant, MAX_UNIX_SECONDS, MIN_UNIX_SECONDS};
use crate::record::{
    decode_record, decode_record_bytes, empty_record, encode_record, record_bytes, AnchorRecord,
    RecordView,
};
use crate::recurrence::NANOS_PER_SECOND;

verus! {

/// What the byte store answered to a read of the record's key.
#[derive(Debug)]
pub enum StoreRead {
    /// The key holds these bytes.
    Found(Vec<u8>),
    /// The key has never been written.
    KeyNotFound,
    /// The store failed otherwise.
    Failed,
}

/// Failures of the persisted state.
#[derive(Clone, Copy, Debug, PartialEq, Eq, Structural)]
pub enum StorageError {
    /// The stored blob is not a record.
    CorruptState,
    /// The store could not be read.
    StoreReadFailed,
    /// The store rejected a write.
    StoreWriteFailed,
    /// An interval below zero was given.
    InvalidInterval,
}

/// RFC 3339 text, with offset `+00:00`, of the instant `secs` seconds and
/// `nanos` nanoseconds after the Unix epoch.
pub uninterp spec fn rfc3339_text_of(secs: int, nanos: int) -> Seq<char>;

/// Unix seconds and nanoseconds of the instant that RFC 3339 text `text`
/// denotes; `None` where the text is not such a timestamp.
pub uninterp spec fn rfc3339_instant_of(text: Seq<char>) -> Option<(int, int)>;

/// Relies on chrono's `DateTime::<Utc>::from_timestamp`, which accepts every
/// instant of the years 0 to 9999 with a nanosecond part below one second,
/// and on `DateTime::to_rfc3339` for the text. In those years the text has a
/// four-digit year, the nanoseconds in full and the offset `+00:00`, which
/// `DateTime::parse_from_rfc3339` reads back as the same instant.
#[verifier::external_body]
fn chrono_to_rfc3339(secs: i64, nanos: u32) -> (r: Option<String>)
    ensures
        r matches Some(s) ==> s@ == rfc3339_text_of(secs as int, nanos as int),
        MIN_UNIX_SECONDS <= secs <= MAX_UNIX_SECONDS && nanos < NANOS_PER_SECOND ==> {
            &&& r is Some
            &&& rfc3339_instant_of(r->0@) == Some((secs as int, nanos as int))
        },
{
    let t = chrono::DateTime::from_timestamp(secs, nanos)?;
    Some(t.to_rfc3339())
}

/// Relies on chrono's `DateTime::parse_from_rfc3339` and on the parsed
/// instant's `timestamp` and `timestamp_subsec_nanos`.
#[verifier::external_body]
fn chrono_parse_rfc3339(text: &str) -> (r: Option<(i64, u32)>)
    ensures
        r is Some <==> rfc3339_instant_of(text@) is Some,
        r matches Some(p) ==> rfc3339_instant_of(text@)->0 == (p.0 as int, p.1 as int),
{
    match chrono::DateTime::parse_from_rfc3339(text) {
        Ok(t) => Some((t.timestamp(), t.timestamp_subsec_nanos())),
        Err(_) => None,
    }
}

/// The instant that stored text `text` denotes, where it is a well-formed
/// instant.
pub open spec fn stored_instant(text: Seq<char>) -> Option<UtcInstant> {
    match rfc3339_instant_of(text) {
        Some((secs, nanos)) => {
            if MIN_UNIX_SECONDS <= secs <= MAX_UNIX_SECONDS && 0 <= nanos < NANOS_PER_SECOND {
                Some(UtcInstant { secs: secs as i64, nanos: nanos as u32 })
            } else {
                None
            }
        },
        None => None,
    }
}

/// The anchor state of one session.
pub struct Storage {
    message: AnchorRecord,
}

impl View for Storage {
    type V = RecordView;

    closed spec fn view(&self) -> RecordView {
        self.message@
    }
}

impl Storage {
    /// The state read from the store. Where the key was never written, the
    /// state is the empty record and the second part is its blob, to be
    /// written under the key. A blob that is no record, or a failed read, is
    /// an error, and nothing is to be written.
    pub fn new(read: StoreRead) -> (r: Result<(Storage, Option<Vec<u8>>), StorageError>)
        ensures
            match read {
                StoreRead::Found(b) => match decode_record(b@) {
                    Some(v) => r matches Ok((s, None)) && s@ == v,
                    None => r matches Err(StorageError::CorruptState),
                },
                StoreRead::KeyNotFound => r matches Ok((s, Some(w))) && s@ == empty_record() && w@
                    == record_bytes(empty_record()),
                StoreRead::Failed => r matches Err(StorageError::StoreReadFailed),
            },
    {
        let mut ret = Storage {
            message: AnchorRecord { start_time_rfc3339: None, interval_seconds: None },
        };
        match ret.load_from_storage(read) {
            Ok(write) => Ok((ret, write)),
            Err(e) => Err(e),
        }
    }

    /// Replaces the state by what the store answered. A blob that is no
    /// record is an error and leaves the state as it was; a key never
    /// written empties the state and returns its blob, to be written.
    pub fn load_from_storage(&mut self, read: StoreRead) -> (r: Result<
        Option<Vec<u8>>,
        StorageError,
    >)
        ensures
            match read {
                StoreRead::Found(b) => match decode_record(b@) {
                    Some(v) => r matches Ok(None) && final(self)@ == v,
                    None => {
                        &&& r == Err::<Option<Vec<u8>>, StorageError>(StorageError::CorruptState)
                        &&& final(self)@ == old(self)@
                    },
                },
                StoreRead::KeyNotFound => {
                    &&& final(self)@ == empty_record()
                    &&& r matches Ok(Some(w)) && w@ == record_bytes(empty_record())
                },
                StoreRead::Failed => {
                    &&& r == Err::<Option<Vec<u8>>, StorageError>(StorageError::StoreReadFailed)
                    &&& final(self)@ == old(self)@
                },
            },
    {
        match read {
            StoreRead::Found(data) => match decode_record_bytes(data.as_slice()) {
                Ok(message) => {
                    self.message = message;
                    Ok(None)
                },
                Err(_) => Err(StorageError::CorruptState),
            },
            StoreRead::KeyNotFound => {
                self.message = AnchorRecord { start_time_rfc3339: None, interval_seconds: None };
                Ok(Some(self.save()))
            },
            StoreRead::Failed => Err(StorageError::StoreReadFailed),
        }
    }

    /// The blob that stores the current state.
    pub fn save(&self) -> (r: Vec<u8>)
        ensures
            r@ == record_bytes(self@),
    {
        encode_record(&self.message)
    }

    /// The interval in seconds; `None` while it was never set.
    pub fn get_start_interval(&self) -> (r: Option<i64>)
        ensures
            r == self@.1,
    {
        self.message.interval_seconds
    }

    /// The anchor instant; `None` while it was never set, or where the stored
    /// text is no well-formed instant.
    pub fn get_start_time(&self) -> (r: Option<UtcInstant>)
        ensures
            r == match self@.0 {
                Some(t) => stored_instant(t),
                None => None,
            },
    {
        match &self.message.start_time_rfc3339 {
            Some(text) => match chrono_parse_rfc3339(text.as_str()) {
                Some((secs, nanos)) => {
                    if MIN_UNIX_SECONDS <= secs && secs <= MAX_UNIX_SECONDS && nanos
                        < NANOS_PER_SECOND {
                        Some(UtcInstant { secs, nanos })
                    } else {
                        None
                    }
                },
                None => None,
            },
            None => None,
        }
    }

    /// Sets the anchor instant, kept as its RFC 3339 text, and returns the
    /// blob of the new state, to be written.
    pub fn set_start_time(&mut self, start_time: UtcInstant) -> (r: Vec<u8>)
        requires
            start_time.wf(),
        ensures
            final(self)@ == (
                Some(rfc3339_text_of(start_time.secs as int, start_time.nanos as int)),
                old(self)@.1,
            ),
            stored_instant(rfc3339_text_of(start_time.secs as int, start_time.nanos as int))
                == Some(start_time),
            r@ == record_bytes(final(self)@),
    {
        match chrono_to_rfc3339(start_time.secs, start_time.nanos) {
            Some(text) => {
                self.message.start_time_rfc3339 = Some(text);
            },
            None => {},
        }
        self.save()
    }

    /// Sets the interval in seconds and returns the blob of the new state, to
    /// be written; an interval below zero is refused and changes nothing.
    pub fn set_start_interval(&mut self, interval: i64) -> (r: Result<Vec<u8>, StorageError>)
        ensures
            interval < 0 ==> {
                &&& r == Err::<Vec<u8>, StorageError>(StorageError::InvalidInterval)
                &&& final(self)@ == old(self)@
            },
            interval >= 0 ==> {
                &&& final(self)@ == (old(self)@.0, Some(interval))
                &&& r matches Ok(w) && w@ == record_bytes(final(self)@)
            },
    {
        if interval < 0 {
            return Err(StorageError::InvalidInterval);
        }
        self.message.interval_seconds = Some(interval);
        Ok(self.save())
    }
}

} // verus!
