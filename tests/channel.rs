use usn_journal::channel::{decode_query_response, decode_read_response, next_cursor, records, QUERY_BUFFER_LEN};
use usn_journal::error::Error;
use usn_journal::journal_data::UsnJournalData;

#[test]
fn failed_read_yields_device_code_without_decoding() {
    let buffer = [0xffu8; 64];
    assert_eq!(decode_read_response(false, 5, &buffer, 64), Err(Error::DeviceCallFailed(5)));
    assert_eq!(decode_read_response(false, 1179, &buffer, 0), Err(Error::DeviceCallFailed(1179)));
}

#[test]
fn short_read_is_malformed() {
    let buffer = [1u8; 64];
    for n in 0u32..8 {
        assert_eq!(decode_read_response(true, 0, &buffer, n), Err(Error::MalformedResponse));
    }
    assert_eq!(decode_read_response(true, 0, &buffer, 65), Err(Error::MalformedResponse));
}

#[test]
fn successful_read_returns_filled_prefix() {
    let mut buffer = [0u8; 32];
    buffer[..8].copy_from_slice(&1234u64.to_le_bytes());
    buffer[8] = 9;
    buffer[9] = 10;
    let batch = decode_read_response(true, 0, &buffer, 10).unwrap();
    assert_eq!(batch.len(), 10);
    assert_eq!(next_cursor(batch), Some(1234));
    assert_eq!(records(batch), Some(&[9u8, 10][..]));

    let only_cursor = decode_read_response(true, 0, &buffer, 8).unwrap();
    assert_eq!(records(only_cursor), Some(&[][..]));
}

#[test]
fn cursor_of_short_batch_is_none() {
    assert_eq!(next_cursor(&[1, 2, 3]), None);
    assert_eq!(records(&[1, 2, 3]), None);
}

#[test]
fn failed_query_yields_device_code() {
    let output = [0u8; QUERY_BUFFER_LEN];
    assert_eq!(decode_query_response(false, 1178, &output, 56), Err(Error::DeviceCallFailed(1178)));
}

#[test]
fn query_decodes_only_the_bytes_returned() {
    let mut output = [0u8; QUERY_BUFFER_LEN];
    output[16..24].copy_from_slice(&777u64.to_le_bytes());
    let d = decode_query_response(true, 0, &output, 56).unwrap();
    assert!(matches!(d, UsnJournalData::V0(_)));
    assert_eq!(d.get_next_usn(), 777);
    assert!(matches!(decode_query_response(true, 0, &output, 80), Ok(UsnJournalData::V2(_))));
}

#[test]
fn empty_successful_query_is_unrecognized_schema() {
    let output = [0u8; QUERY_BUFFER_LEN];
    assert_eq!(decode_query_response(true, 0, &output, 0), Err(Error::UnrecognizedSchema(0)));
    assert_eq!(decode_query_response(true, 0, &output, 70), Err(Error::UnrecognizedSchema(70)));
}

#[test]
fn query_count_past_buffer_is_malformed() {
    let output = [0u8; QUERY_BUFFER_LEN];
    assert_eq!(decode_query_response(true, 0, &output, 81), Err(Error::MalformedResponse));
}

#[test]
fn error_reports_native_code() {
    assert_eq!(Error::from_native_code(5).native_code(), Some(5));
    assert_eq!(Error::unrecognized_schema(3).native_code(), None);
    assert_eq!(Error::MalformedResponse.native_code(), None);
}
