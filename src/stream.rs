//! The decisions of the frame streamer: where reading starts in the input,
//! and when copying ends.
use vstd::prelude::*;

use crate::layout::{frame_start, PatchError, FIELD_OFFSET};

verus! {

/// Progress of copying the frame payload from the input to the output.
///
/// Reading starts behind the *old* field; the bytes read are written to the
/// output as they come, so their place there follows from the *new* field.
pub struct FrameCursor {
    /// Offset in the input at which the frame payload starts.
    pub start: u64,
    /// Offset in the input of the next byte to read.
    pub source_pos: u64,
    /// Whether a read has come back empty.
    pub finished: bool,
}

impl FrameCursor {
    /// The cursor never stands before the start of the payload.
    pub open spec fn wf(self) -> bool {
        self.start <= self.source_pos
    }

    /// How many bytes of the payload have been read and handed on.
    pub open spec fn copied(self) -> nat {
        (self.source_pos - self.start) as nat
    }

    /// A cursor at the start of the frame payload of an input of `input_len`
    /// bytes whose old field holds `old_len` bytes; an error where the input
    /// ends before that start.
    pub fn new(input_len: u64, old_len: u8) -> (r: Result<FrameCursor, PatchError>)
        ensures
            match r {
                Ok(c) => {
                    &&& input_len >= frame_start(old_len as nat)
                    &&& c.start == frame_start(old_len as nat)
                    &&& c.source_pos == c.start
                    &&& !c.finished
                },
                Err(e) => input_len < frame_start(old_len as nat) && e == PatchError::TruncatedFrames,
            },
    {
        let start: u64 = FIELD_OFFSET as u64 + old_len as u64;
        if input_len < start {
            Err(PatchError::TruncatedFrames)
        } else {
            Ok(FrameCursor { start, source_pos: start, finished: false })
        }
    }

    /// Records a read that returned `len_read` bytes. Those bytes are to be
    /// written to the output in full; copying goes on while the result is
    /// `true`, and ends at the first empty read.
    pub fn on_read(&mut self, len_read: usize) -> (more: bool)
        requires
            old(self).wf(),
            !old(self).finished,
            old(self).source_pos + len_read <= u64::MAX,
        ensures
            more == (len_read > 0),
            final(self).wf(),
            final(self).start == old(self).start,
            final(self).source_pos == old(self).source_pos + len_read,
            final(self).copied() == old(self).copied() + len_read,
            final(self).finished == (len_read == 0),
    {
        if len_read == 0 {
            self.finished = true;
            false
        } else {
            self.source_pos = self.source_pos + len_read as u64;
            true
        }
    }
}

} // verus!
