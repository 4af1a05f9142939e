//! The journal descriptor, in the three layouts that the query returns. The
//! layout is told by the response's length alone: 56, 60 or 80 bytes.

use crate::codec::{le_i64, le_u16, le_u32, le_u64, read_i64_le, read_u16_le, read_u32_le, read_u64_le};
use crate::error::Error;
use vstd::prelude::*;
use vstd::slice::slice_subrange;

verus! {

/// Length of a descriptor in the first layout.
pub const V0_LEN: usize = 56;

/// Length of a descriptor in the second layout.
pub const V1_LEN: usize = 60;

/// Length of a descriptor in the third layout.
pub const V2_LEN: usize = 80;

/// The `u64` field at byte `at` of `s`.
pub open spec fn u64_at(s: Seq<u8>, at: int) -> u64 {
    le_u64(s.subrange(at, at + 8))
}

/// The `u32` field at byte `at` of `s`.
pub open spec fn u32_at(s: Seq<u8>, at: int) -> u32 {
    le_u32(s.subrange(at, at + 4))
}

/// The `u16` field at byte `at` of `s`.
pub open spec fn u16_at(s: Seq<u8>, at: int) -> u16 {
    le_u16(s.subrange(at, at + 2))
}

/// The `i64` field at byte `at` of `s`.
pub open spec fn i64_at(s: Seq<u8>, at: int) -> i64 {
    le_i64(s.subrange(at, at + 8))
}

/// A journal descriptor in the first layout (56 bytes).
#[derive(Debug, Clone, Copy, PartialEq, Eq, Structural)]
pub struct UsnJournalDataV0 {
    pub usn_journal_id: u64,
    pub first_usn: u64,
    pub next_usn: u64,
    pub lowest_valid_usn: u64,
    pub max_usn: u64,
    pub maximum_size: u64,
    pub allocation_delta: u64,
}

/// A journal descriptor in the second layout (60 bytes): the first, then the
/// bounds of the read request versions that the journal accepts.
#[derive(Debug, Clone, Copy, PartialEq, Eq, Structural)]
pub struct UsnJournalDataV1 {
    pub usn_journal_id: u64,
    pub first_usn: u64,
    pub next_usn: u64,
    pub lowest_valid_usn: u64,
    pub max_usn: u64,
    pub maximum_size: u64,
    pub allocation_delta: u64,
    pub min_major_version: u16,
    pub max_major_version: u16,
}

/// A journal descriptor in the third layout (80 bytes): the second, then the
/// range tracking settings.
#[derive(Debug, Clone, Copy, PartialEq, Eq, Structural)]
pub struct UsnJournalDataV2 {
    pub usn_journal_id: u64,
    pub first_usn: u64,
    pub next_usn: u64,
    pub lowest_valid_usn: u64,
    pub max_usn: u64,
    pub maximum_size: u64,
    pub allocation_delta: u64,
    pub min_major_version: u16,
    pub max_major_version: u16,
    pub flags: u32,
    pub range_track_chunk_size: u64,
    pub range_track_file_size_threshold: i64,
}

/// A journal descriptor, in the layout that the query returned.
#[derive(Debug, Clone, Copy, PartialEq, Eq, Structural)]
pub enum UsnJournalData {
    V0(UsnJournalDataV0),
    V1(UsnJournalDataV1),
    V2(UsnJournalDataV2),
}

impl UsnJournalDataV0 {
    /// The descriptor whose fields stand at their offsets in `s`.
    pub open spec fn from_bytes(s: Seq<u8>) -> UsnJournalDataV0 {
        UsnJournalDataV0 {
            usn_journal_id: u64_at(s, 0),
            first_usn: u64_at(s, 8),
            next_usn: u64_at(s, 16),
            lowest_valid_usn: u64_at(s, 24),
            max_usn: u64_at(s, 32),
            maximum_size: u64_at(s, 40),
            allocation_delta: u64_at(s, 48),
        }
    }

    /// Reads the descriptor from the first 56 bytes of `buffer`.
    pub fn new(buffer: &[u8]) -> (r: UsnJournalDataV0)
        requires
            buffer@.len() >= V0_LEN,
        ensures
            r == Self::from_bytes(buffer@),
    {
        UsnJournalDataV0 {
            usn_journal_id: read_u64_le(slice_subrange(buffer, 0, 8)),
            first_usn: read_u64_le(slice_subrange(buffer, 8, 16)),
            next_usn: read_u64_le(slice_subrange(buffer, 16, 24)),
            lowest_valid_usn: read_u64_le(slice_subrange(buffer, 24, 32)),
            max_usn: read_u64_le(slice_subrange(buffer, 32, 40)),
            maximum_size: read_u64_le(slice_subrange(buffer, 40, 48)),
            allocation_delta: read_u64_le(slice_subrange(buffer, 48, 56)),
        }
    }
}

impl UsnJournalDataV1 {
    /// The descriptor whose fields stand at their offsets in `s`.
    pub open spec fn from_bytes(s: Seq<u8>) -> UsnJournalDataV1 {
        UsnJournalDataV1 {
            usn_journal_id: u64_at(s, 0),
            first_usn: u64_at(s, 8),
            next_usn: u64_at(s, 16),
            lowest_valid_usn: u64_at(s, 24),
            max_usn: u64_at(s, 32),
            maximum_size: u64_at(s, 40),
            allocation_delta: u64_at(s, 48),
            min_major_version: u16_at(s, 56),
            max_major_version: u16_at(s, 58),
        }
    }

    /// Reads the descriptor from the first 60 bytes of `buffer`.
    pub fn new(buffer: &[u8]) -> (r: UsnJournalDataV1)
        requires
            buffer@.len() >= V1_LEN,
        ensures
            r == Self::from_bytes(buffer@),
    {
        UsnJournalDataV1 {
            usn_journal_id: read_u64_le(slice_subrange(buffer, 0, 8)),
            first_usn: read_u64_le(slice_subrange(buffer, 8, 16)),
            next_usn: read_u64_le(slice_subrange(buffer, 16, 24)),
            lowest_valid_usn: read_u64_le(slice_subrange(buffer, 24, 32)),
            max_usn: read_u64_le(slice_subrange(buffer, 32, 40)),
            maximum_size: read_u64_le(slice_subrange(buffer, 40, 48)),
            allocation_delta: read_u64_le(slice_subrange(buffer, 48, 56)),
            min_major_version: read_u16_le(slice_subrange(buffer, 56, 58)),
            max_major_version: read_u16_le(slice_subrange(buffer, 58, 60)),
        }
    }
}

impl UsnJournalDataV2 {
    /// The descriptor whose fields stand at their offsets in `s`.
    pub open spec fn from_bytes(s: Seq<u8>) -> UsnJournalDataV2 {
        UsnJournalDataV2 {
            usn_journal_id: u64_at(s, 0),
            first_usn: u64_at(s, 8),
            next_usn: u64_at(s, 16),
            lowest_valid_usn: u64_at(s, 24),
            max_usn: u64_at(s, 32),
            maximum_size: u64_at(s, 40),
            allocation_delta: u64_at(s, 48),
            min_major_version: u16_at(s, 56),
            max_major_version: u16_at(s, 58),
            flags: u32_at(s, 60),
            range_track_chunk_size: u64_at(s, 64),
            range_track_file_size_threshold: i64_at(s, 72),
        }
    }

    /// Reads the descriptor from the first 80 bytes of `buffer`.
    pub fn new(buffer: &[u8]) -> (r: UsnJournalDataV2)
        requires
            buffer@.len() >= V2_LEN,
        ensures
            r == Self::from_bytes(buffer@),
    {
        UsnJournalDataV2 {
            usn_journal_id: read_u64_le(slice_subrange(buffer, 0, 8)),
            first_usn: read_u64_le(slice_subrange(buffer, 8, 16)),
            next_usn: read_u64_le(slice_subrange(buffer, 16, 24)),
            lowest_valid_usn: read_u64_le(slice_subrange(buffer, 24, 32)),
            max_usn: read_u64_le(slice_subrange(buffer, 32, 40)),
            maximum_size: read_u64_le(slice_subrange(buffer, 40, 48)),
            allocation_delta: read_u64_le(slice_subrange(buffer, 48, 56)),
            min_major_version: read_u16_le(slice_subrange(buffer, 56, 58)),
            max_major_version: read_u16_le(slice_subrange(buffer, 58, 60)),
            flags: read_u32_le(slice_subrange(buffer, 60, 64)),
            range_track_chunk_size: read_u64_le(slice_subrange(buffer, 64, 72)),
            range_track_file_size_threshold: read_i64_le(slice_subrange(buffer, 72, 80)),
        }
    }
}

impl UsnJournalData {
    /// What a query response of exactly the bytes `s` decodes to: the layout
    /// whose length `s` has, or the error that carries the length.
    pub open spec fn decode(s: Seq<u8>) -> Result<UsnJournalData, Error> {
        if s.len() == V0_LEN {
            Ok(UsnJournalData::V0(UsnJournalDataV0::from_bytes(s)))
        } else if s.len() == V1_LEN {
            Ok(UsnJournalData::V1(UsnJournalDataV1::from_bytes(s)))
        } else if s.len() == V2_LEN {
            Ok(UsnJournalData::V2(UsnJournalDataV2::from_bytes(s)))
        } else {
            Err(Error::UnrecognizedSchema(s.len() as usize))
        }
    }

    /// Decodes a query response; its length alone selects the layout.
    pub fn new(buffer: &[u8]) -> (r: Result<UsnJournalData, Error>)
        ensures
            r == Self::decode(buffer@),
    {
        let len = buffer.len();
        if len == V0_LEN {
            Ok(UsnJournalData::V0(UsnJournalDataV0::new(buffer)))
        } else if len == V1_LEN {
            Ok(UsnJournalData::V1(UsnJournalDataV1::new(buffer)))
        } else if len == V2_LEN {
            Ok(UsnJournalData::V2(UsnJournalDataV2::new(buffer)))
        } else {
            Err(Error::unrecognized_schema(len))
        }
    }

    /// The journal's identity.
    pub open spec fn spec_journal_id(self) -> u64 {
        match self {
            UsnJournalData::V0(d) => d.usn_journal_id,
            UsnJournalData::V1(d) => d.usn_journal_id,
            UsnJournalData::V2(d) => d.usn_journal_id,
        }
    }

    /// The first sequence number in the journal.
    pub open spec fn spec_first_usn(self) -> u64 {
        match self {
            UsnJournalData::V0(d) => d.first_usn,
            UsnJournalData::V1(d) => d.first_usn,
            UsnJournalData::V2(d) => d.first_usn,
        }
    }

    /// The sequence number that the next record will get.
    pub open spec fn spec_next_usn(self) -> u64 {
        match self {
            UsnJournalData::V0(d) => d.next_usn,
            UsnJournalData::V1(d) => d.next_usn,
            UsnJournalData::V2(d) => d.next_usn,
        }
    }

    /// The sequence number that the next record will get.
    pub fn get_next_usn(&self) -> (r: u64)
        ensures
            r == self.spec_next_usn(),
    {
        match self {
            UsnJournalData::V0(jd) => jd.next_usn,
            UsnJournalData::V1(jd) => jd.next_usn,
            UsnJournalData::V2(jd) => jd.next_usn,
        }
    }

    /// The journal's identity; a change between two queries means the
    /// journal was reset.
    pub fn get_journal_id(&self) -> (r: u64)
        ensures
            r == self.spec_journal_id(),
    {
        match self {
            UsnJournalData::V0(jd) => jd.usn_journal_id,
            UsnJournalData::V1(jd) => jd.usn_journal_id,
            UsnJournalData::V2(jd) => jd.usn_journal_id,
        }
    }

    /// The first sequence number in the journal.
    pub fn get_first_usn(&self) -> (r: u64)
        ensures
            r == self.spec_first_usn(),
    {
        match self {
            UsnJournalData::V0(jd) => jd.first_usn,
            UsnJournalData::V1(jd) => jd.first_usn,
            UsnJournalData::V2(jd) => jd.first_usn,
        }
    }
}

/// A response whose length is none of the three layouts' decodes to no
/// descriptor: it fails with an unrecognized schema that carries its length.
pub proof fn lemma_unknown_length_rejected(s: Seq<u8>)
    requires
        s.len() != V0_LEN,
        s.len() != V1_LEN,
        s.len() != V2_LEN,
        s.len() <= usize::MAX,
    ensures
        UsnJournalData::decode(s) == Err::<UsnJournalData, Error>(Error::UnrecognizedSchema(s.len() as usize)),
{
}

} // verus!
