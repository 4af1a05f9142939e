//! What the two control calls yield, given what the device reported: the
//! call's success, its native code, the output buffer and the number of bytes
//! written. The calls themselves are made by the caller that holds the handle.

use crate::codec::{le_u64, read_u64_le};
use crate::error::Error;
use crate::journal_data::{UsnJournalData, V2_LEN};
use vstd::prelude::*;
use vstd::slice::slice_subrange;

verus! {

/// The capacity of the output buffer for a descriptor query: the largest
/// descriptor layout.
pub const QUERY_BUFFER_LEN: usize = V2_LEN;

/// The length of the cursor that starts every read response.
pub const CURSOR_LEN: usize = 8;

/// What a descriptor query yields: the device's failure code, a count of
/// bytes past the buffer, or the descriptor that the bytes written decode to.
pub open spec fn spec_query_response(
    call_succeeded: bool,
    native_code: u32,
    output: Seq<u8>,
    bytes_returned: u32,
) -> Result<UsnJournalData, Error> {
    if !call_succeeded {
        Err(Error::DeviceCallFailed(native_code))
    } else if bytes_returned > output.len() {
        Err(Error::MalformedResponse)
    } else {
        UsnJournalData::decode(output.subrange(0, bytes_returned as int))
    }
}

/// Decodes the outcome of a descriptor query. Only the bytes written count:
/// their number selects the layout, and a number that fits no layout, none
/// included, is an unrecognized schema.
pub fn decode_query_response(
    call_succeeded: bool,
    native_code: u32,
    output: &[u8],
    bytes_returned: u32,
) -> (r: Result<UsnJournalData, Error>)
    ensures
        r == spec_query_response(call_succeeded, native_code, output@, bytes_returned),
{
    if !call_succeeded {
        return Err(Error::from_native_code(native_code));
    }
    let n = bytes_returned as usize;
    if n > output.len() {
        return Err(Error::MalformedResponse);
    }
    UsnJournalData::new(slice_subrange(output, 0, n))
}

/// Whether a read that reported success wrote a usable response: at least
/// the cursor, and no more than the buffer holds.
pub open spec fn read_response_ok(buffer_len: nat, bytes_returned: u32) -> bool {
    CURSOR_LEN <= bytes_returned <= buffer_len
}

/// Classifies the outcome of a batch read. On success the result is the
/// part of `buffer` that the device filled: the next cursor, then the
/// records. A failed call is never looked into.
pub fn decode_read_response<'a>(
    call_succeeded: bool,
    native_code: u32,
    buffer: &'a [u8],
    bytes_returned: u32,
) -> (r: Result<&'a [u8], Error>)
    ensures
        !call_succeeded ==> r == Err::<&[u8], Error>(Error::DeviceCallFailed(native_code)),
        call_succeeded && !read_response_ok(buffer@.len(), bytes_returned) ==> r == Err::<
            &[u8],
            Error,
        >(Error::MalformedResponse),
        call_succeeded && read_response_ok(buffer@.len(), bytes_returned) ==> r is Ok
            && r->Ok_0@ == buffer@.subrange(0, bytes_returned as int),
{
    if !call_succeeded {
        return Err(Error::from_native_code(native_code));
    }
    let n = bytes_returned as usize;
    if n < CURSOR_LEN || n > buffer.len() {
        return Err(Error::MalformedResponse);
    }
    Ok(slice_subrange(buffer, 0, n))
}

/// The cursor that a read response starts with, from which the next read
/// resumes; none for a response too short to hold one.
pub fn next_cursor(batch: &[u8]) -> (r: Option<u64>)
    ensures
        batch@.len() < CURSOR_LEN ==> r is None,
        batch@.len() >= CURSOR_LEN ==> r == Some(le_u64(batch@)),
{
    if batch.len() < CURSOR_LEN {
        None
    } else {
        Some(read_u64_le(batch))
    }
}

/// The records of a read response: what follows the cursor; none for a
/// response too short to hold the cursor.
pub fn records(batch: &[u8]) -> (r: Option<&[u8]>)
    ensures
        batch@.len() < CURSOR_LEN ==> r is None,
        batch@.len() >= CURSOR_LEN ==> r is Some && r->Some_0@ == batch@.subrange(
            CURSOR_LEN as int,
            batch@.len() as int,
        ),
{
    if batch.len() < CURSOR_LEN {
        None
    } else {
        Some(slice_subrange(batch, CURSOR_LEN, batch.len()))
    }
}

} // verus!
