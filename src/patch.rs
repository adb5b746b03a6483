//! The patch itself: inspecting the old length, rewriting the header and
//! streaming the frame payload.
use vstd::prelude::*;

use crate::layout::{
    frames, header_error, new_header, patch_error, patched, patched_with, stored_len, PatchError,
    BUF_SIZE, FIELD_OFFSET, LENGTH_OFFSET, MAX_FIELD_LEN,
};
use crate::stream::FrameCursor;

verus! {

/// Appends `input[start..end)` to `output`.
fn append_range(input: &[u8], output: &mut Vec<u8>, start: usize, end: usize)
    requires
        start <= end <= input@.len(),
    ensures
        final(output)@ == old(output)@ + input@.subrange(start as int, end as int),
{
    let ghost out0 = output@;
    let mut i: usize = start;
    while i < end
        invariant
            start <= i <= end <= input@.len(),
            output@ == out0 + input@.subrange(start as int, i as int),
        decreases end - i,
    {
        output.push(input[i]);
        i = i + 1;
        assert(input@.subrange(start as int, i as int) =~= input@.subrange(
            start as int,
            i - 1,
        ).push(input@[i - 1]));
    }
}

/// Reads the existing weather field's length, the byte at `LENGTH_OFFSET`.
/// Fails where the input ends before that byte.
pub fn get_existing_weather_len(input: &[u8]) -> (r: Result<u8, PatchError>)
    ensures
        match r {
            Ok(n) => input@.len() > LENGTH_OFFSET && n == input@[LENGTH_OFFSET as int],
            Err(e) => input@.len() <= LENGTH_OFFSET && e == PatchError::TruncatedHeader,
        },
{
    if input.len() <= LENGTH_OFFSET {
        Err(PatchError::TruncatedHeader)
    } else {
        Ok(input[LENGTH_OFFSET])
    }
}

/// Copies the bytes `[start, end)` of the input to the output and returns how
/// many were copied. Fails, writing nothing, where the input is shorter than
/// `end`.
pub fn copy_exact(input: &[u8], output: &mut Vec<u8>, start: usize, end: usize) -> (r: Result<
    usize,
    PatchError,
>)
    requires
        start <= end,
    ensures
        match r {
            Ok(n) => {
                &&& end <= input@.len()
                &&& n == end - start
                &&& final(output)@ == old(output)@ + input@.subrange(start as int, end as int)
            },
            Err(e) => {
                &&& end > input@.len()
                &&& e == PatchError::OutOfRange
                &&& final(output)@ == old(output)@
            },
        },
{
    if end > input.len() {
        Err(PatchError::OutOfRange)
    } else {
        append_range(input, output, start, end);
        Ok(end - start)
    }
}

/// Writes the new header: the input's preamble, the new field's length as one
/// byte, the input's padding, and the new field value. Fails, writing nothing,
/// where the field is longer than `MAX_FIELD_LEN` or the input's header is
/// incomplete.
pub fn write_header(input: &[u8], output: &mut Vec<u8>, of_weather: &[u8]) -> (r: Result<
    (),
    PatchError,
>)
    ensures
        match r {
            Ok(()) => {
                &&& header_error(input@, of_weather@) is None
                &&& final(output)@ == old(output)@ + new_header(input@, of_weather@)
            },
            Err(e) => {
                &&& header_error(input@, of_weather@) == Some(e)
                &&& final(output)@ == old(output)@
            },
        },
{
    if of_weather.len() > MAX_FIELD_LEN {
        return Err(PatchError::FieldTooLong);
    }
    if input.len() < FIELD_OFFSET {
        return Err(PatchError::TruncatedHeader);
    }
    let ghost out0 = output@;
    append_range(input, output, 0, LENGTH_OFFSET);
    output.push(of_weather.len() as u8);
    append_range(input, output, LENGTH_OFFSET + 1, FIELD_OFFSET);
    append_range(of_weather, output, 0, of_weather.len());
    assert(of_weather@.subrange(0, of_weather@.len() as int) =~= of_weather@);
    assert(output@ =~= out0 + new_header(input@, of_weather@));
    Ok(())
}

/// Copies the frame payload, everything behind the old field of
/// `if_weather_len` bytes, to the output in reads of at most `BUF_SIZE` bytes.
/// Fails, writing nothing, where the input ends inside the old field.
pub fn write_frames(input: &[u8], output: &mut Vec<u8>, if_weather_len: u8) -> (r: Result<
    (),
    PatchError,
>)
    ensures
        match r {
            Ok(()) => {
                &&& input@.len() >= FIELD_OFFSET + if_weather_len
                &&& final(output)@ == old(output)@ + frames(input@, if_weather_len as nat)
            },
            Err(e) => {
                &&& input@.len() < FIELD_OFFSET + if_weather_len
                &&& e == PatchError::TruncatedFrames
                &&& final(output)@ == old(output)@
            },
        },
{
    let mut cursor = match FrameCursor::new(input.len() as u64, if_weather_len) {
        Ok(c) => c,
        Err(e) => return Err(e),
    };
    let ghost out0 = output@;
    let mut more = true;
    while more
        invariant
            cursor.wf(),
            cursor.start == FIELD_OFFSET + if_weather_len,
            cursor.source_pos <= input@.len(),
            more == !cursor.finished,
            cursor.finished ==> cursor.source_pos == input@.len(),
            output@ == out0 + input@.subrange(cursor.start as int, cursor.source_pos as int),
        decreases input@.len() - cursor.source_pos + (if more { 1int } else { 0int }),
    {
        let pos = cursor.source_pos as usize;
        let avail = input.len() - pos;
        let len_read = if avail < BUF_SIZE {
            avail
        } else {
            BUF_SIZE
        };
        let ghost before = output@;
        append_range(input, output, pos, pos + len_read);
        assert(input@.subrange(cursor.start as int, pos + len_read) =~= input@.subrange(
            cursor.start as int,
            pos as int,
        ) + input@.subrange(pos as int, pos + len_read));
        more = cursor.on_read(len_read);
    }
    Ok(())
}

/// Writes the patched file: the new header for `of_weather`, then the frame
/// payload found behind the old field of `if_weather_len` bytes. Fails,
/// writing nothing, on an oversized field, an incomplete header, or an input
/// that ends inside the old field.
pub fn write_new_replay(
    input: &[u8],
    output: &mut Vec<u8>,
    if_weather_len: u8,
    of_weather: &[u8],
) -> (r: Result<(), PatchError>)
    ensures
        match r {
            Ok(()) => {
                &&& patch_error(input@, if_weather_len as nat, of_weather@) is None
                &&& final(output)@ == old(output)@ + patched_with(
                    input@,
                    if_weather_len as nat,
                    of_weather@,
                )
            },
            Err(e) => {
                &&& patch_error(input@, if_weather_len as nat, of_weather@) == Some(e)
                &&& final(output)@ == old(output)@
            },
        },
{
    if of_weather.len() <= MAX_FIELD_LEN && input.len() >= FIELD_OFFSET && input.len()
        < FIELD_OFFSET + if_weather_len as usize {
        return Err(PatchError::TruncatedFrames);
    }
    let ghost out0 = output@;
    match write_header(input, output, of_weather) {
        Ok(()) => {},
        Err(e) => return Err(e),
    }
    match write_frames(input, output, if_weather_len) {
        Ok(()) => {},
        Err(e) => return Err(e),
    }
    assert(output@ =~= out0 + patched_with(input@, if_weather_len as nat, of_weather@));
    Ok(())
}

/// Patches a whole file in memory: reads the old length from its header and
/// returns the file with its weather field replaced by `of_weather`. The field
/// length is checked before anything else.
pub fn patch_replay(input: &[u8], of_weather: &[u8]) -> (r: Result<Vec<u8>, PatchError>)
    ensures
        match r {
            Ok(out) => {
                &&& patch_error(input@, stored_len(input@), of_weather@) is None
                &&& out@ == patched(input@, of_weather@)
            },
            Err(e) => patch_error(input@, stored_len(input@), of_weather@) == Some(e),
        },
{
    if of_weather.len() > MAX_FIELD_LEN {
        return Err(PatchError::FieldTooLong);
    }
    let old_len = match get_existing_weather_len(input) {
        Ok(n) => n,
        Err(e) => return Err(e),
    };
    let mut out: Vec<u8> = Vec::new();
    match write_new_replay(input, &mut out, old_len, of_weather) {
        Ok(()) => {},
        Err(e) => return Err(e),
    }
    assert(out@ =~= patched(input@, of_weather@));
    Ok(out)
}

} // verus!
