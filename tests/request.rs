use byteorder::{ByteOrder, LittleEndian};
use usn_journal::journal_data::{UsnJournalData, UsnJournalDataV0, UsnJournalDataV1, UsnJournalDataV2};
use usn_journal::read_request::{ReadUsnJournalData, ReadUsnJournalDataV0, ReadUsnJournalDataV1};

fn v0_descriptor() -> UsnJournalData {
    UsnJournalData::V0(UsnJournalDataV0 {
        usn_journal_id: 42,
        first_usn: 100,
        next_usn: 400,
        lowest_valid_usn: 100,
        max_usn: 1 << 60,
        maximum_size: 1 << 25,
        allocation_delta: 1 << 23,
    })
}

#[test]
fn v0_descriptor_seeds_v0_request() {
    let r = ReadUsnJournalData::from_usn_journal_data(v0_descriptor());
    assert_eq!(
        r,
        ReadUsnJournalData::V0(ReadUsnJournalDataV0 {
            start_usn: 100,
            reason_mask: 0xFFFF_FFFF,
            return_only_on_close: 0,
            timeout: 0,
            bytes_to_wait_for: 0,
            usn_journal_id: 42,
        })
    );
}

#[test]
fn v1_descriptor_seeds_v1_request() {
    let d = UsnJournalData::V1(UsnJournalDataV1 {
        usn_journal_id: 7,
        first_usn: 11,
        next_usn: 12,
        lowest_valid_usn: 11,
        max_usn: 99,
        maximum_size: 5,
        allocation_delta: 6,
        min_major_version: 2,
        max_major_version: 3,
    });
    let r = ReadUsnJournalData::from_usn_journal_data(d);
    assert_eq!(r, ReadUsnJournalData::V1(ReadUsnJournalDataV1::new(11, 7, 2, 3)));
}

#[test]
fn v2_descriptor_downgrades_to_v1_request() {
    let d = UsnJournalData::V2(UsnJournalDataV2 {
        usn_journal_id: 8,
        first_usn: 21,
        next_usn: 22,
        lowest_valid_usn: 21,
        max_usn: 99,
        maximum_size: 5,
        allocation_delta: 6,
        min_major_version: 2,
        max_major_version: 4,
        flags: 1,
        range_track_chunk_size: 16,
        range_track_file_size_threshold: 1024,
    });
    let r = ReadUsnJournalData::from_usn_journal_data(d);
    assert_eq!(
        r,
        ReadUsnJournalData::V1(ReadUsnJournalDataV1 {
            start_usn: 21,
            reason_mask: 0xFFFF_FFFF,
            return_only_on_close: 0,
            timeout: 0,
            bytes_to_wait_for: 0,
            usn_journal_id: 8,
            min_major_version: 2,
            max_major_version: 4,
        })
    );
}

#[test]
fn with_start_usn_changes_only_the_start() {
    let r = ReadUsnJournalData::from_usn_journal_data(v0_descriptor()).with_reason_mask(0x100);
    let moved = r.with_start_usn(500);
    let mut expected = match r {
        ReadUsnJournalData::V0(d) => d,
        ReadUsnJournalData::V1(_) => unreachable!(),
    };
    expected.start_usn = 500;
    assert_eq!(moved, ReadUsnJournalData::V0(expected));

    let v1 = ReadUsnJournalData::V1(ReadUsnJournalDataV1::new(3, 9, 2, 3));
    let mut expected1 = ReadUsnJournalDataV1::new(500, 9, 2, 3);
    expected1.start_usn = 500;
    assert_eq!(v1.with_start_usn(500), ReadUsnJournalData::V1(expected1));
}

#[test]
fn start_past_the_journal_end_is_accepted() {
    let r = ReadUsnJournalData::from_usn_journal_data(v0_descriptor()).with_start_usn(u64::MAX);
    match r {
        ReadUsnJournalData::V0(d) => assert_eq!(d.start_usn, u64::MAX),
        ReadUsnJournalData::V1(_) => unreachable!(),
    }
}

#[test]
fn with_reason_mask_changes_only_the_mask() {
    let r = ReadUsnJournalData::V1(ReadUsnJournalDataV1::new(3, 9, 2, 3));
    let mut expected = ReadUsnJournalDataV1::new(3, 9, 2, 3);
    expected.reason_mask = 0x0000_0102;
    assert_eq!(r.with_reason_mask(0x0000_0102), ReadUsnJournalData::V1(expected));
}

#[test]
fn v0_request_round_trips_through_native_offsets() {
    let req = ReadUsnJournalDataV0 {
        start_usn: 0x0102_0304_0506_0708,
        reason_mask: 0xdead_beef,
        return_only_on_close: 1,
        timeout: 30,
        bytes_to_wait_for: 4096,
        usn_journal_id: 0x1122_3344_5566_7788,
    };
    let bytes = ReadUsnJournalData::V0(req).to_bytes();
    assert_eq!(bytes.len(), 40);
    assert_eq!(bytes[0], 0x08);
    assert_eq!(bytes[7], 0x01);
    assert_eq!(LittleEndian::read_u64(&bytes[0..8]), req.start_usn);
    assert_eq!(LittleEndian::read_u32(&bytes[8..12]), req.reason_mask);
    assert_eq!(LittleEndian::read_u32(&bytes[12..16]), req.return_only_on_close);
    assert_eq!(LittleEndian::read_u64(&bytes[16..24]), req.timeout);
    assert_eq!(LittleEndian::read_u64(&bytes[24..32]), req.bytes_to_wait_for);
    assert_eq!(LittleEndian::read_u64(&bytes[32..40]), req.usn_journal_id);
}

#[test]
fn v1_request_round_trips_through_native_offsets() {
    let mut req = ReadUsnJournalDataV1::new(0xaabb_ccdd_0011_2233, 77, 2, 4);
    req.timeout = 5;
    req.bytes_to_wait_for = 1;
    let bytes = req.to_bytes();
    assert_eq!(bytes.len(), 48);
    assert_eq!(LittleEndian::read_u64(&bytes[0..8]), 0xaabb_ccdd_0011_2233);
    assert_eq!(LittleEndian::read_u32(&bytes[8..12]), 0xFFFF_FFFF);
    assert_eq!(LittleEndian::read_u32(&bytes[12..16]), 0);
    assert_eq!(LittleEndian::read_u64(&bytes[16..24]), 5);
    assert_eq!(LittleEndian::read_u64(&bytes[24..32]), 1);
    assert_eq!(LittleEndian::read_u64(&bytes[32..40]), 77);
    assert_eq!(LittleEndian::read_u16(&bytes[40..42]), 2);
    assert_eq!(LittleEndian::read_u16(&bytes[42..44]), 4);
    assert_eq!(&bytes[44..48], &[0u8, 0, 0, 0]);
    assert_eq!(ReadUsnJournalData::V1(req).to_bytes(), bytes);
}
