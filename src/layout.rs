//! The fixed layout of a replay file and the mathematical model of a patch.
use vstd::prelude::*;

verus! {

/// Offset of the one-byte length of the weather field.
pub const LENGTH_OFFSET: usize = 12;

/// Offset of the first byte of the weather field.
pub const FIELD_OFFSET: usize = 16;

/// Largest field length that the one-byte prefix can hold.
pub const MAX_FIELD_LEN: usize = 255;

/// Size of the buffer through which the frame payload is copied.
pub const BUF_SIZE: usize = 128 * 1024;

/// Why a patch was refused.
#[derive(Debug, Clone, Copy, PartialEq, Eq, Structural)]
pub enum PatchError {
    /// The new field value is longer than the length prefix can state.
    FieldTooLong,
    /// The input ends before the header (length byte and padding) is complete.
    TruncatedHeader,
    /// The input ends inside the old field, before the frame payload starts.
    TruncatedFrames,
    /// A requested byte range reaches past the end of the input.
    OutOfRange,
}

/// The length that the input's header gives for its weather field.
pub open spec fn stored_len(input: Seq<u8>) -> nat {
    input[LENGTH_OFFSET as int] as nat
}

/// The header of the output: the input's preamble, the new length byte, the
/// input's padding, then the new field value.
pub open spec fn new_header(input: Seq<u8>, field: Seq<u8>) -> Seq<u8> {
    input.subrange(0, LENGTH_OFFSET as int) + seq![field.len() as u8]
        + input.subrange(LENGTH_OFFSET + 1, FIELD_OFFSET as int) + field
}

/// Offset in the input at which the frame payload starts, behind an old field
/// of `old_len` bytes.
pub open spec fn frame_start(old_len: nat) -> nat {
    FIELD_OFFSET as nat + old_len
}

/// The frame payload of the input: everything after the old field.
pub open spec fn frames(input: Seq<u8>, old_len: nat) -> Seq<u8> {
    input.subrange(frame_start(old_len) as int, input.len() as int)
}

/// The output for an old field of `old_len` bytes and a new field value.
pub open spec fn patched_with(input: Seq<u8>, old_len: nat, field: Seq<u8>) -> Seq<u8> {
    new_header(input, field) + frames(input, old_len)
}

/// The output of patching `input`, whose own header gives the old length.
pub open spec fn patched(input: Seq<u8>, field: Seq<u8>) -> Seq<u8> {
    patched_with(input, stored_len(input), field)
}

/// The error of a header rewrite, if any: an oversized field first, then a
/// short header.
pub open spec fn header_error(input: Seq<u8>, field: Seq<u8>) -> Option<PatchError> {
    if field.len() > MAX_FIELD_LEN {
        Some(PatchError::FieldTooLong)
    } else if input.len() < FIELD_OFFSET {
        Some(PatchError::TruncatedHeader)
    } else {
        None
    }
}

/// The error of a patch with the given old length, if any: a header error
/// first, then an input that ends inside the old field.
pub open spec fn patch_error(input: Seq<u8>, old_len: nat, field: Seq<u8>) -> Option<PatchError> {
    if header_error(input, field) is Some {
        header_error(input, field)
    } else if input.len() < frame_start(old_len) {
        Some(PatchError::TruncatedFrames)
    } else {
        None
    }
}

/// A file whose header is complete and whose field fits inside it.
pub open spec fn well_formed(input: Seq<u8>) -> bool {
    &&& input.len() >= FIELD_OFFSET
    &&& input.len() >= frame_start(stored_len(input))
}

/// The weather field stored in a well-formed file.
pub open spec fn stored_field(input: Seq<u8>) -> Seq<u8> {
    input.subrange(FIELD_OFFSET as int, frame_start(stored_len(input)) as int)
}

} // verus!
