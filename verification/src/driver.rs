//! Running the engine on what is buffered.
//!
//! The operations of [`Stream`] take one header field at a time. The two
//! functions here put them in the order that the stream's state asks for:
//! [`Stream::advance`] makes one step, [`Stream::read_frames`] makes steps
//! until the engine can go no further.

use vstd::prelude::*;
use crate::error::Error;
use crate::frame::{frame_views, Frame};
use crate::laws::{lemma_run_unfolds, lemma_step_progress};
use crate::model::{delivered, rank, StreamView};
use crate::stream::{Stream, StreamState, StreamType};
use crate::varint::varint_parse_len;

verus! {

impl Stream {
    /// Makes the one step that the stream's state asks for, and returns the
    /// frame if the step completed one. The role is read from the first
    /// byte of the stream-type field, once the field is buffered whole;
    /// the frame type is one byte; lengths and the push id are
    /// variable-length integers.
    ///
    /// A step that fails changes nothing. `BufferTooShort` says that the
    /// step needs bytes that have not arrived; the same call succeeds or
    /// fails otherwise once they have. `InternalError` says that the
    /// state has no step: the stream carries QPACK instructions, or it is
    /// `Invalid` or `Done`. The other failures are the peer's.
    pub fn advance(&mut self) -> (r: Result<Option<Frame>, Error>)
        requires
            old(self).wf(),
        ensures
            final(self).wf(),
            old(self)@.evolves_to(final(self)@),
            match old(self)@.step() {
                Ok((next, frame)) => r is Ok && final(self)@ == next && match frame {
                    Some(f) => r->Ok_0 is Some && r->Ok_0->0@ == f,
                    None => r->Ok_0 is None,
                },
                Err(e) => r == Err::<Option<Frame>, Error>(e) && final(self)@ == old(self)@,
            },
    {
        proof {
            reveal(StreamView::step);
        }
        match *self.get_stream_state() {
            StreamState::StreamTypeLen => {
                self.set_stream_type_len(1)?;
                Ok(None)
            },
            StreamState::StreamType => {
                let width = self._type_len() as usize;
                let span = if width == 0 {
                    1
                } else {
                    width
                };
                let tag = self.buf_bytes(span)?[0];
                self.set_stream_type(StreamType::deserialize(tag))?;
                Ok(None)
            },
            StreamState::FramePayloadLenLen | StreamState::PushIdLen => {
                let first = self.buf_bytes(1)?[0];
                self.set_next_varint_len(varint_parse_len(first))?;
                Ok(None)
            },
            StreamState::FramePayloadLen => {
                let len = self.get_varint()?;
                self.set_frame_payload_len(len)?;
                Ok(None)
            },
            StreamState::PushId => {
                let id = self.get_varint()?;
                self._set_push_id(id)?;
                Ok(None)
            },
            StreamState::FrameTypeLen => {
                self.set_next_varint_len(1)?;
                Ok(None)
            },
            StreamState::FrameType => {
                let ty = self.buf_bytes(1)?[0];
                self.set_frame_type(ty)?;
                self.get_u8()?;
                Ok(None)
            },
            StreamState::FramePayload => {
                let frame = self.parse_frame()?;
                Ok(Some(frame))
            },
            StreamState::QpackInstruction | StreamState::Invalid | StreamState::Done => Err(
                Error::InternalError,
            ),
        }
    }

    /// Makes step after step until one fails, and returns the frames
    /// completed on the way, in order, with the failure that ended the
    /// run. `BufferTooShort` is the ordinary end: everything buffered that
    /// could be used has been used, and the call is to be repeated after
    /// the next `add_data`. `InternalError` ends the run where framing
    /// ends: on a stream of unknown role, and on a QPACK stream as soon as
    /// it is classified, whose instructions the caller then reads with
    /// `buf_bytes` and `get_u8`. After any failure but `BufferTooShort` a
    /// further run delivers nothing.
    pub fn read_frames(&mut self) -> (r: (Vec<Frame>, Error))
        requires
            old(self).wf(),
        ensures
            final(self).wf(),
            old(self)@.evolves_to(final(self)@),
            final(self)@ == old(self)@.run().end,
            frame_views(r.0@) == old(self)@.run().frames,
            r.1 == old(self)@.run().stop,
    {
        let mut frames: Vec<Frame> = Vec::new();
        loop
            invariant
                self.wf(),
                old(self)@.evolves_to(self@),
                old(self)@.run() == self@.run().after(frame_views(frames@)),
            decreases self@.buffered(), rank(self@.state),
        {
            let ghost before = self@;
            let ghost had = frames@;
            proof {
                lemma_run_unfolds(before);
                if before.step() is Ok {
                    lemma_step_progress(before);
                }
            }
            match self.advance() {
                Ok(Some(frame)) => {
                    frames.push(frame);
                    proof {
                        assert(frame_views(frames@) =~= frame_views(had) + delivered(Some(frame@)));
                        assert(before.run().frames =~= delivered(Some(frame@)) + self@.run().frames);
                        assert(old(self)@.run().frames =~= frame_views(frames@)
                            + self@.run().frames);
                    }
                },
                Ok(None) => {
                    proof {
                        assert(before.run().frames =~= self@.run().frames);
                    }
                },
                Err(e) => {
                    proof {
                        assert(old(self)@.run().frames =~= frame_views(frames@));
                    }
                    return (frames, e);
                },
            }
        }
    }
}

} // verus!
