//! The read request, in the two layouts that the device accepts, and the
//! bytes that each is sent as. A descriptor in the third layout gets a
//! request in the second: no third request layout exists.

use crate::codec::{
    le_bytes_u16, le_bytes_u32, le_bytes_u64, lemma_le_u16_round_trip,
    lemma_le_u32_round_trip, lemma_le_u64_round_trip, u16_to_le, u32_to_le, u64_to_le,
};
use crate::journal_data::{u16_at, u32_at, u64_at, UsnJournalData};
use vstd::prelude::*;

verus! {

/// The reason mask that selects every kind of change.
pub const ALL_REASONS: u32 = 0xffff_ffff;

/// Length of an encoded request in the first layout.
pub const READ_V0_LEN: usize = 40;

/// Length of an encoded request in the second layout, with the padding that
/// aligns the native structure to eight bytes.
pub const READ_V1_LEN: usize = 48;

/// A read request in the first layout.
#[derive(Debug, Clone, Copy, PartialEq, Eq, Structural)]
pub struct ReadUsnJournalDataV0 {
    pub start_usn: u64,
    pub reason_mask: u32,
    pub return_only_on_close: u32,
    pub timeout: u64,
    pub bytes_to_wait_for: u64,
    pub usn_journal_id: u64,
}

/// A read request in the second layout: the first, then the bounds of the
/// record versions wanted.
#[derive(Debug, Clone, Copy, PartialEq, Eq, Structural)]
pub struct ReadUsnJournalDataV1 {
    pub start_usn: u64,
    pub reason_mask: u32,
    pub return_only_on_close: u32,
    pub timeout: u64,
    pub bytes_to_wait_for: u64,
    pub usn_journal_id: u64,
    pub min_major_version: u16,
    pub max_major_version: u16,
}

/// A read request, in the layout that its descriptor called for.
#[derive(Debug, Clone, Copy, PartialEq, Eq, Structural)]
pub enum ReadUsnJournalData {
    V0(ReadUsnJournalDataV0),
    V1(ReadUsnJournalDataV1),
}

/// Appends the bytes of `bytes` to `out`.
fn extend_bytes<const N: usize>(out: &mut Vec<u8>, bytes: [u8; N])
    requires
        old(out)@.len() + N <= usize::MAX,
    ensures
        final(out)@ == old(out)@ + bytes@,
{
    let mut i: usize = 0;
    while i < N
        invariant
            i <= N,
            bytes@.len() == N,
            out@ == old(out)@ + bytes@.subrange(0, i as int),
            old(out)@.len() + N <= usize::MAX,
        decreases N - i,
    {
        out.push(bytes[i]);
        i = i + 1;
        assert(out@ =~= old(out)@ + bytes@.subrange(0, i as int));
    }
    assert(bytes@.subrange(0, N as int) =~= bytes@);
}

impl ReadUsnJournalDataV0 {
    /// A request that starts at `start_usn` in journal `usn_journal_id`,
    /// asks for every reason, and returns at once with what there is.
    pub fn new(start_usn: u64, usn_journal_id: u64) -> (r: ReadUsnJournalDataV0)
        ensures
            r == (ReadUsnJournalDataV0 {
                start_usn,
                reason_mask: ALL_REASONS,
                return_only_on_close: 0,
                timeout: 0,
                bytes_to_wait_for: 0,
                usn_journal_id,
            }),
    {
        ReadUsnJournalDataV0 {
            start_usn,
            reason_mask: ALL_REASONS,
            return_only_on_close: 0,
            timeout: 0,
            bytes_to_wait_for: 0,
            usn_journal_id,
        }
    }

    /// The bytes of the native structure, field by field, least significant
    /// byte first.
    pub open spec fn spec_bytes(self) -> Seq<u8> {
        le_bytes_u64(self.start_usn) + le_bytes_u32(self.reason_mask) + le_bytes_u32(
            self.return_only_on_close,
        ) + le_bytes_u64(self.timeout) + le_bytes_u64(self.bytes_to_wait_for) + le_bytes_u64(
            self.usn_journal_id,
        )
    }

    /// The bytes that the request is sent to the device as.
    pub fn to_bytes(&self) -> (r: Vec<u8>)
        ensures
            r@ == self.spec_bytes(),
    {
        let mut out: Vec<u8> = Vec::new();
        extend_bytes(&mut out, u64_to_le(self.start_usn));
        extend_bytes(&mut out, u32_to_le(self.reason_mask));
        extend_bytes(&mut out, u32_to_le(self.return_only_on_close));
        extend_bytes(&mut out, u64_to_le(self.timeout));
        extend_bytes(&mut out, u64_to_le(self.bytes_to_wait_for));
        extend_bytes(&mut out, u64_to_le(self.usn_journal_id));
        out
    }
}

impl ReadUsnJournalDataV1 {
    /// A request that starts at `start_usn` in journal `usn_journal_id`, for
    /// records of the versions from `min_major_version` to
    /// `max_major_version`, asks for every reason, and returns at once with
    /// what there is.
    pub fn new(start_usn: u64, usn_journal_id: u64, min_major_version: u16, max_major_version: u16)
        -> (r: ReadUsnJournalDataV1)
        ensures
            r == (ReadUsnJournalDataV1 {
                start_usn,
                reason_mask: ALL_REASONS,
                return_only_on_close: 0,
                timeout: 0,
                bytes_to_wait_for: 0,
                usn_journal_id,
                min_major_version,
                max_major_version,
            }),
    {
        ReadUsnJournalDataV1 {
            start_usn,
            reason_mask: ALL_REASONS,
            return_only_on_close: 0,
            timeout: 0,
            bytes_to_wait_for: 0,
            usn_journal_id,
            min_major_version,
            max_major_version,
        }
    }

    /// The bytes of the native structure, field by field, least significant
    /// byte first, then four bytes of zero padding.
    pub open spec fn spec_bytes(self) -> Seq<u8> {
        le_bytes_u64(self.start_usn) + le_bytes_u32(self.reason_mask) + le_bytes_u32(
            self.return_only_on_close,
        ) + le_bytes_u64(self.timeout) + le_bytes_u64(self.bytes_to_wait_for) + le_bytes_u64(
            self.usn_journal_id,
        ) + le_bytes_u16(self.min_major_version) + le_bytes_u16(self.max_major_version) + seq![
            0u8,
            0u8,
            0u8,
            0u8,
        ]
    }

    /// The bytes that the request is sent to the device as.
    pub fn to_bytes(&self) -> (r: Vec<u8>)
        ensures
            r@ == self.spec_bytes(),
    {
        let mut out: Vec<u8> = Vec::new();
        extend_bytes(&mut out, u64_to_le(self.start_usn));
        extend_bytes(&mut out, u32_to_le(self.reason_mask));
        extend_bytes(&mut out, u32_to_le(self.return_only_on_close));
        extend_bytes(&mut out, u64_to_le(self.timeout));
        extend_bytes(&mut out, u64_to_le(self.bytes_to_wait_for));
        extend_bytes(&mut out, u64_to_le(self.usn_journal_id));
        extend_bytes(&mut out, u16_to_le(self.min_major_version));
        extend_bytes(&mut out, u16_to_le(self.max_major_version));
        extend_bytes(&mut out, [0u8; 4]);
        out
    }
}

impl ReadUsnJournalData {
    /// The request that a descriptor seeds: from its first sequence number,
    /// in its journal, with every reason and no waiting; the first layout for
    /// the first descriptor layout, the second for the other two.
    pub open spec fn spec_from_usn_journal_data(journal_data: UsnJournalData) -> ReadUsnJournalData {
        match journal_data {
            UsnJournalData::V0(d) => ReadUsnJournalData::V0(
                ReadUsnJournalDataV0 {
                    start_usn: d.first_usn,
                    reason_mask: ALL_REASONS,
                    return_only_on_close: 0,
                    timeout: 0,
                    bytes_to_wait_for: 0,
                    usn_journal_id: d.usn_journal_id,
                },
            ),
            UsnJournalData::V1(d) => ReadUsnJournalData::V1(
                ReadUsnJournalDataV1 {
                    start_usn: d.first_usn,
                    reason_mask: ALL_REASONS,
                    return_only_on_close: 0,
                    timeout: 0,
                    bytes_to_wait_for: 0,
                    usn_journal_id: d.usn_journal_id,
                    min_major_version: d.min_major_version,
                    max_major_version: d.max_major_version,
                },
            ),
            UsnJournalData::V2(d) => ReadUsnJournalData::V1(
                ReadUsnJournalDataV1 {
                    start_usn: d.first_usn,
                    reason_mask: ALL_REASONS,
                    return_only_on_close: 0,
                    timeout: 0,
                    bytes_to_wait_for: 0,
                    usn_journal_id: d.usn_journal_id,
                    min_major_version: d.min_major_version,
                    max_major_version: d.max_major_version,
                },
            ),
        }
    }

    /// The request that `journal_data` seeds.
    pub fn from_usn_journal_data(journal_data: UsnJournalData) -> (r: ReadUsnJournalData)
        ensures
            r == Self::spec_from_usn_journal_data(journal_data),
    {
        match journal_data {
            UsnJournalData::V0(d) => ReadUsnJournalData::V0(
                ReadUsnJournalDataV0::new(d.first_usn, d.usn_journal_id),
            ),
            UsnJournalData::V1(d) => ReadUsnJournalData::V1(
                ReadUsnJournalDataV1::new(
                    d.first_usn,
                    d.usn_journal_id,
                    d.min_major_version,
                    d.max_major_version,
                ),
            ),
            UsnJournalData::V2(d) => ReadUsnJournalData::V1(
                ReadUsnJournalDataV1::new(
                    d.first_usn,
                    d.usn_journal_id,
                    d.min_major_version,
                    d.max_major_version,
                ),
            ),
        }
    }

    /// The same request with the reason mask `reason_mask`.
    pub fn with_reason_mask(self, reason_mask: u32) -> (r: Self)
        ensures
            r == (match self {
                ReadUsnJournalData::V0(d) => ReadUsnJournalData::V0(
                    ReadUsnJournalDataV0 { reason_mask, ..d },
                ),
                ReadUsnJournalData::V1(d) => ReadUsnJournalData::V1(
                    ReadUsnJournalDataV1 { reason_mask, ..d },
                ),
            }),
    {
        let mut r = self;
        match r {
            ReadUsnJournalData::V0(ref mut d) => d.reason_mask = reason_mask,
            ReadUsnJournalData::V1(ref mut d) => d.reason_mask = reason_mask,
        }
        r
    }

    /// The same request, starting at `start_usn`; a cursor past the journal's
    /// end is left for the device to judge.
    pub fn with_start_usn(self, start_usn: u64) -> (r: Self)
        ensures
            r == (match self {
                ReadUsnJournalData::V0(d) => ReadUsnJournalData::V0(
                    ReadUsnJournalDataV0 { start_usn, ..d },
                ),
                ReadUsnJournalData::V1(d) => ReadUsnJournalData::V1(
                    ReadUsnJournalDataV1 { start_usn, ..d },
                ),
            }),
    {
        let mut r = self;
        match r {
            ReadUsnJournalData::V0(ref mut d) => d.start_usn = start_usn,
            ReadUsnJournalData::V1(ref mut d) => d.start_usn = start_usn,
        }
        r
    }

    /// The bytes that the request is sent as.
    pub open spec fn spec_bytes(self) -> Seq<u8> {
        match self {
            ReadUsnJournalData::V0(d) => d.spec_bytes(),
            ReadUsnJournalData::V1(d) => d.spec_bytes(),
        }
    }

    /// The bytes that the request is sent to the device as: exactly the
    /// native structure of its layout.
    pub fn to_bytes(&self) -> (r: Vec<u8>)
        ensures
            r@ == self.spec_bytes(),
    {
        match self {
            ReadUsnJournalData::V0(d) => d.to_bytes(),
            ReadUsnJournalData::V1(d) => d.to_bytes(),
        }
    }
}

/// Reading an encoded first-layout request at the native offsets gives back
/// every field, and the encoding is exactly as long as the native structure.
pub proof fn lemma_read_v0_round_trip(r: ReadUsnJournalDataV0)
    ensures
        r.spec_bytes().len() == READ_V0_LEN,
        u64_at(r.spec_bytes(), 0) == r.start_usn,
        u32_at(r.spec_bytes(), 8) == r.reason_mask,
        u32_at(r.spec_bytes(), 12) == r.return_only_on_close,
        u64_at(r.spec_bytes(), 16) == r.timeout,
        u64_at(r.spec_bytes(), 24) == r.bytes_to_wait_for,
        u64_at(r.spec_bytes(), 32) == r.usn_journal_id,
{
    let s = r.spec_bytes();
    lemma_le_u64_round_trip(r.start_usn);
    lemma_le_u32_round_trip(r.reason_mask);
    lemma_le_u32_round_trip(r.return_only_on_close);
    lemma_le_u64_round_trip(r.timeout);
    lemma_le_u64_round_trip(r.bytes_to_wait_for);
    lemma_le_u64_round_trip(r.usn_journal_id);
    assert(s.subrange(0, 8) =~= le_bytes_u64(r.start_usn));
    assert(s.subrange(8, 12) =~= le_bytes_u32(r.reason_mask));
    assert(s.subrange(12, 16) =~= le_bytes_u32(r.return_only_on_close));
    assert(s.subrange(16, 24) =~= le_bytes_u64(r.timeout));
    assert(s.subrange(24, 32) =~= le_bytes_u64(r.bytes_to_wait_for));
    assert(s.subrange(32, 40) =~= le_bytes_u64(r.usn_journal_id));
}

/// Reading an encoded second-layout request at the native offsets gives back
/// every field, and the encoding is exactly as long as the native structure.
pub proof fn lemma_read_v1_round_trip(r: ReadUsnJournalDataV1)
    ensures
        r.spec_bytes().len() == READ_V1_LEN,
        u64_at(r.spec_bytes(), 0) == r.start_usn,
        u32_at(r.spec_bytes(), 8) == r.reason_mask,
        u32_at(r.spec_bytes(), 12) == r.return_only_on_close,
        u64_at(r.spec_bytes(), 16) == r.timeout,
        u64_at(r.spec_bytes(), 24) == r.bytes_to_wait_for,
        u64_at(r.spec_bytes(), 32) == r.usn_journal_id,
        u16_at(r.spec_bytes(), 40) == r.min_major_version,
        u16_at(r.spec_bytes(), 42) == r.max_major_version,
{
    let s = r.spec_bytes();
    lemma_le_u64_round_trip(r.start_usn);
    lemma_le_u32_round_trip(r.reason_mask);
    lemma_le_u32_round_trip(r.return_only_on_close);
    lemma_le_u64_round_trip(r.timeout);
    lemma_le_u64_round_trip(r.bytes_to_wait_for);
    lemma_le_u64_round_trip(r.usn_journal_id);
    lemma_le_u16_round_trip(r.min_major_version);
    lemma_le_u16_round_trip(r.max_major_version);
    assert(s.subrange(0, 8) =~= le_bytes_u64(r.start_usn));
    assert(s.subrange(8, 12) =~= le_bytes_u32(r.reason_mask));
    assert(s.subrange(12, 16) =~= le_bytes_u32(r.return_only_on_close));
    assert(s.subrange(16, 24) =~= le_bytes_u64(r.timeout));
    assert(s.subrange(24, 32) =~= le_bytes_u64(r.bytes_to_wait_for));
    assert(s.subrange(32, 40) =~= le_bytes_u64(r.usn_journal_id));
    assert(s.subrange(40, 42) =~= le_bytes_u16(r.min_major_version));
    assert(s.subrange(42, 44) =~= le_bytes_u16(r.max_major_version));
}

} // verus!
