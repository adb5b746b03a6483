//! Properties that every patch has.
use vstd::prelude::*;

use crate::layout::{
    frame_start, patch_error, patched, stored_field, stored_len, well_formed, PatchError,
    FIELD_OFFSET, LENGTH_OFFSET, MAX_FIELD_LEN,
};

verus! {

/// Writing back the field that a file already holds gives the file unchanged,
/// byte for byte.
pub proof fn lemma_round_trip(input: Seq<u8>, field: Seq<u8>)
    requires
        well_formed(input),
        field == stored_field(input),
    ensures
        patch_error(input, stored_len(input), field) is None,
        patched(input, field) == input,
{
    assert(patched(input, field) =~= input);
}

/// A patch gives a well-formed file, and patching that file again with the
/// same value gives the same file.
pub proof fn lemma_idempotent(input: Seq<u8>, field: Seq<u8>)
    requires
        well_formed(input),
        field.len() <= MAX_FIELD_LEN,
    ensures
        well_formed(patched(input, field)),
        stored_field(patched(input, field)) == field,
        patch_error(patched(input, field), stored_len(patched(input, field)), field) is None,
        patched(patched(input, field), field) == patched(input, field),
{
    let out = patched(input, field);
    assert(out[LENGTH_OFFSET as int] == field.len() as u8);
    assert(stored_field(out) =~= field);
    lemma_round_trip(out, field);
}

/// The output's length byte is the new field's length, and the new field
/// follows the header in full.
pub proof fn lemma_length_prefix(input: Seq<u8>, field: Seq<u8>)
    requires
        well_formed(input),
        field.len() <= MAX_FIELD_LEN,
    ensures
        patched(input, field).len() >= FIELD_OFFSET + field.len(),
        patched(input, field)[LENGTH_OFFSET as int] as nat == field.len(),
        patched(input, field).subrange(FIELD_OFFSET as int, FIELD_OFFSET + field.len()) == field,
{
    let out = patched(input, field);
    assert(out.subrange(FIELD_OFFSET as int, FIELD_OFFSET + field.len()) =~= field);
}

/// The frame payload behind the old field reappears unchanged behind the new
/// field, and reaches to the end of the output, also where it is empty.
pub proof fn lemma_frames_preserved(input: Seq<u8>, field: Seq<u8>)
    requires
        well_formed(input),
        field.len() <= MAX_FIELD_LEN,
    ensures
        patched(input, field).len() - (FIELD_OFFSET + field.len()) == input.len() - frame_start(
            stored_len(input),
        ),
        patched(input, field).subrange(
            FIELD_OFFSET + field.len(),
            patched(input, field).len() as int,
        ) == input.subrange(frame_start(stored_len(input)) as int, input.len() as int),
{
    let out = patched(input, field);
    assert(out.subrange(FIELD_OFFSET + field.len(), out.len() as int) =~= input.subrange(
        frame_start(stored_len(input)) as int,
        input.len() as int,
    ));
}

/// The preamble before the length byte and the padding behind it are the
/// same in input and output, whatever the two field lengths.
pub proof fn lemma_preamble_preserved(input: Seq<u8>, field: Seq<u8>)
    requires
        well_formed(input),
        field.len() <= MAX_FIELD_LEN,
    ensures
        patched(input, field).subrange(0, LENGTH_OFFSET as int) == input.subrange(
            0,
            LENGTH_OFFSET as int,
        ),
        patched(input, field).subrange(LENGTH_OFFSET + 1, FIELD_OFFSET as int) == input.subrange(
            LENGTH_OFFSET + 1,
            FIELD_OFFSET as int,
        ),
{
    let out = patched(input, field);
    assert(out.subrange(0, LENGTH_OFFSET as int) =~= input.subrange(0, LENGTH_OFFSET as int));
    assert(out.subrange(LENGTH_OFFSET + 1, FIELD_OFFSET as int) =~= input.subrange(
        LENGTH_OFFSET + 1,
        FIELD_OFFSET as int,
    ));
}

/// An input shorter than the header is refused whatever the new field.
pub proof fn lemma_truncated_rejected(input: Seq<u8>, field: Seq<u8>)
    requires
        input.len() < FIELD_OFFSET,
    ensures
        patch_error(input, stored_len(input), field) is Some,
        field.len() <= MAX_FIELD_LEN ==> patch_error(input, stored_len(input), field) == Some(
            PatchError::TruncatedHeader,
        ),
{
}

} // verus!
