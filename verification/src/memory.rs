//! The selection memory: one slot that holds the background applied last.

use vstd::prelude::*;
use vstd::string::StrSliceExecFns;
use vstd::utf8::{decode_utf8, encode_utf8, encode_utf8_decode_utf8};
use crate::error::RunError;

verus! {

/// The state of the single-slot record that backs the memory.
#[derive(Debug, PartialEq, Eq)]
pub enum MemoryRecord {
    /// There is no record, or it cannot be opened: nothing was selected before.
    Missing,
    /// The record exists and was opened, but reading it failed.
    Unreadable,
    /// The record holds this value.
    Stored(String),
}

impl MemoryRecord {
    /// What a read of the record yields: the stored value, nothing at all for
    /// a missing record, and no answer for an unreadable one.
    pub open spec fn previous(self) -> Option<Seq<char>> {
        match self {
            MemoryRecord::Missing => Some(Seq::<char>::empty()),
            MemoryRecord::Unreadable => None,
            MemoryRecord::Stored(value) => Some(value@),
        }
    }

    /// Whether the record holds exactly `value`.
    pub open spec fn holds(self, value: Seq<char>) -> bool {
        self matches MemoryRecord::Stored(stored) && stored@ == value
    }
}

/// Reads the previous selection. A missing record is the valid state "no
/// previous selection" and reads as the empty string; a record that exists but
/// cannot be read is a failure, since passing it off as empty would switch the
/// repeat protection off without a word.
pub fn get_previously_used_wallpaper(cache_file: &str, record: &MemoryRecord) -> (previous: Result<
    String,
    RunError,
>)
    ensures
        match previous {
            Ok(value) => record.previous() == Some(value@),
            Err(RunError::MemoryUnreadable { cache_file: named }) => record.previous() is None
                && named@ == cache_file@,
            Err(_) => false,
        },
{
    match record {
        MemoryRecord::Missing => Ok(String::new()),
        MemoryRecord::Unreadable => Err(
            RunError::MemoryUnreadable { cache_file: cache_file.to_owned() },
        ),
        MemoryRecord::Stored(value) => Ok(value.clone()),
    }
}

/// Overwrites the record with `file_path`, whatever it held, and returns the
/// bytes that now make up the backing file: the UTF-8 encoding of the value
/// and nothing else, so no line end and no padding.
pub fn update_cache(record: &mut MemoryRecord, file_path: &str) -> (bytes: Vec<u8>)
    ensures
        final(record).holds(file_path@),
        bytes@ == encode_utf8(file_path@),
{
    *record = MemoryRecord::Stored(file_path.to_owned());
    file_path.as_bytes_vec()
}

/// Round trip: a value written to the memory is the value read back, for every
/// earlier state of the record and every value.
pub proof fn lemma_write_then_read(record: MemoryRecord, value: Seq<char>)
    requires
        record.holds(value),
    ensures
        record.previous() == Some(value),
        decode_utf8(encode_utf8(value)) == value,
{
    encode_utf8_decode_utf8(value);
}

} // verus!
