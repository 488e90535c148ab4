//! The stream engine as a mathematical state machine.
//!
//! A [`StreamView`] is what a [`crate::stream::Stream`] looks like in
//! contracts, and each operation of the engine has a function here that
//! says what the operation does: the setters, the getters and
//! `parse_frame` under their own names, `add_data` as
//! [`StreamView::append`], `advance` as [`StreamView::step`] and
//! `read_frames` as [`StreamView::run`]. An operation either yields the
//! next state, or fails and leaves the state as it was.

use vstd::prelude::*;
use crate::error::Error;
use crate::frame::{allowed_on_request, FrameView, SETTINGS_FRAME_TYPE_ID};
use crate::stream::{bidi, StreamState, StreamType};
use crate::varint::{decode, varint_len};

verus! {

/// The state of one stream.
pub struct StreamView {
    /// The QUIC stream id.
    pub id: u64,
    /// Whether this endpoint opened the stream.
    pub is_local: bool,
    /// The stream's role, once known.
    pub ty: Option<StreamType>,
    /// Whether the stream has met its opening obligation: a control
    /// stream its SETTINGS frame, a push stream its push id.
    pub initialised: bool,
    /// Width of the stream-type field.
    pub ty_len: u8,
    /// Position in the grammar.
    pub state: StreamState,
    /// Bytes consumed since the stream began.
    pub stream_offset: nat,
    /// Every byte received so far, consumed or not.
    pub buf: Seq<u8>,
    /// Index in `buf` of the next byte to consume.
    pub buf_read_off: nat,
    /// Index in `buf` one past the last byte received.
    pub buf_end_pos: nat,
    /// Width of the integer field that is read next.
    pub next_varint_len: nat,
    /// Declared payload length of the frame being read.
    pub frame_payload_len: nat,
    /// Type of the frame being read.
    pub frame_type: Option<u8>,
    /// The push id of a push stream, once read.
    pub push_id: Option<nat>,
}

/// What running the engine until it stops has produced.
pub struct Run {
    /// The state in which the engine stopped.
    pub end: StreamView,
    /// The frames cut out on the way, in order.
    pub frames: Seq<FrameView>,
    /// Why the engine stopped.
    pub stop: Error,
}

impl Run {
    /// The same run with `frames` delivered before it.
    pub open spec fn after(self, frames: Seq<FrameView>) -> Run {
        Run { end: self.end, frames: frames + self.frames, stop: self.stop }
    }
}

/// The frames that one step delivers: one or none.
pub open spec fn delivered(frame: Option<FrameView>) -> Seq<FrameView> {
    match frame {
        Some(f) => seq![f],
        None => Seq::empty(),
    }
}

/// Orders the states so that every step that consumes no byte moves to a
/// lower state.
pub open spec fn rank(state: StreamState) -> nat {
    match state {
        StreamState::StreamTypeLen => 9,
        StreamState::StreamType => 8,
        StreamState::PushIdLen => 7,
        StreamState::PushId => 6,
        StreamState::FramePayload => 5,
        StreamState::FramePayloadLenLen => 4,
        StreamState::FramePayloadLen => 3,
        StreamState::FrameTypeLen => 2,
        StreamState::FrameType => 1,
        StreamState::QpackInstruction => 0,
        StreamState::Invalid => 0,
        StreamState::Done => 0,
    }
}

/// The state that follows classification as `ty`.
pub open spec fn state_after_type(ty: Option<StreamType>) -> StreamState {
    match ty {
        Some(StreamType::Request) => StreamState::FramePayloadLenLen,
        Some(StreamType::Control) => StreamState::FramePayloadLenLen,
        Some(StreamType::Push) => StreamState::PushIdLen,
        Some(StreamType::QpackEncoder) => StreamState::QpackInstruction,
        Some(StreamType::QpackDecoder) => StreamState::QpackInstruction,
        None => StreamState::Invalid,
    }
}

/// Whether a stream of role `ty` admits a frame of type `frame_type`, and
/// in which state its payload is then awaited.
///
/// A control stream admits SETTINGS as its first frame and never again. A
/// request stream admits four frame types. A push stream admits every type
/// and goes straight on to the next frame header. QPACK streams carry no
/// frames. A stream without a role is in no state to take a frame.
pub open spec fn frame_verdict(ty: Option<StreamType>, initialised: bool, frame_type: u8) -> Result<
    StreamState,
    Error,
> {
    match ty {
        Some(StreamType::Control) => if !initialised {
            if frame_type == SETTINGS_FRAME_TYPE_ID {
                Ok(StreamState::FramePayload)
            } else {
                Err(Error::MissingSettings)
            }
        } else {
            if frame_type == SETTINGS_FRAME_TYPE_ID {
                Err(Error::UnexpectedFrame)
            } else {
                Ok(StreamState::FramePayload)
            }
        },
        Some(StreamType::Request) => if allowed_on_request(frame_type) {
            Ok(StreamState::FramePayload)
        } else {
            Err(Error::UnexpectedFrame)
        },
        Some(StreamType::Push) => Ok(StreamState::FramePayloadLenLen),
        Some(StreamType::QpackEncoder) => Err(Error::UnexpectedFrame),
        Some(StreamType::QpackDecoder) => Err(Error::UnexpectedFrame),
        None => Err(Error::InternalError),
    }
}

impl StreamView {
    /// A stream that has received nothing yet. A bidirectional stream is a
    /// request stream from the start; a unidirectional one announces its
    /// role first.
    pub open spec fn initial(id: u64, is_local: bool) -> StreamView {
        StreamView {
            id,
            is_local,
            ty: if bidi(id) {
                Some(StreamType::Request)
            } else {
                None
            },
            initialised: bidi(id),
            ty_len: 0,
            state: if bidi(id) {
                StreamState::FramePayloadLenLen
            } else {
                StreamState::StreamTypeLen
            },
            stream_offset: 0,
            buf: Seq::empty(),
            buf_read_off: 0,
            buf_end_pos: 0,
            next_varint_len: 0,
            frame_payload_len: 0,
            frame_type: None,
            push_id: None,
        }
    }

    /// The role fits the state. Before classification and in the terminal
    /// states the stream has no role and has met no obligation. The push id
    /// is read on push streams, instructions on QPACK streams, frame
    /// headers on framed streams. A payload is awaited only for a frame
    /// type that the role admitted: on a control stream that has its
    /// SETTINGS, on a request stream for one of its four frame types.
    pub open spec fn role_fits_state(self) -> bool {
        match self.state {
            StreamState::StreamTypeLen => self.ty is None && !self.initialised,
            StreamState::StreamType => self.ty is None && !self.initialised,
            StreamState::Invalid => self.ty is None && !self.initialised,
            StreamState::Done => self.ty is None && !self.initialised,
            StreamState::PushIdLen => self.ty == Some(StreamType::Push),
            StreamState::PushId => self.ty == Some(StreamType::Push),
            StreamState::QpackInstruction => self.ty == Some(StreamType::QpackEncoder) || self.ty
                == Some(StreamType::QpackDecoder),
            StreamState::FramePayloadLenLen => self.ty is Some && self.ty->0.is_framed(),
            StreamState::FramePayloadLen => self.ty is Some && self.ty->0.is_framed(),
            StreamState::FrameTypeLen => self.ty is Some && self.ty->0.is_framed(),
            StreamState::FrameType => self.ty is Some && self.ty->0.is_framed(),
            StreamState::FramePayload => self.frame_type is Some && match self.ty {
                Some(StreamType::Control) => self.initialised,
                Some(StreamType::Request) => allowed_on_request(self.frame_type->0),
                _ => false,
            },
        }
    }

    /// The invariant of every stream: the read cursor never passes the end
    /// of what was received, nothing is ever dropped from the buffer, the
    /// stream offset counts exactly the bytes consumed, and the role fits
    /// the state.
    pub open spec fn wf(self) -> bool {
        &&& self.buf_read_off <= self.buf_end_pos
        &&& self.buf_end_pos == self.buf.len()
        &&& self.stream_offset == self.buf_read_off
        &&& self.role_fits_state()
    }

    /// The bytes received and not yet consumed.
    pub open spec fn unread(self) -> Seq<u8> {
        self.buf.subrange(self.buf_read_off as int, self.buf_end_pos as int)
    }

    /// How many bytes are received and not yet consumed.
    pub open spec fn buffered(self) -> nat {
        (self.buf_end_pos - self.buf_read_off) as nat
    }

    /// The stream after `data` has arrived.
    pub open spec fn append(self, data: Seq<u8>) -> StreamView {
        StreamView { buf: self.buf + data, buf_end_pos: self.buf_end_pos + data.len(), ..self }
    }

    /// The stream after `n` more bytes have been consumed.
    pub open spec fn consume(self, n: nat) -> StreamView {
        StreamView {
            buf_read_off: self.buf_read_off + n,
            stream_offset: self.stream_offset + n,
            ..self
        }
    }

    /// The stream in another state.
    pub open spec fn goto(self, state: StreamState) -> StreamView {
        StreamView { state, ..self }
    }

    /// What may lie between a state of a stream and a later one: identity
    /// and role are kept, the cursors only move forward, the buffer only
    /// grows at its end, an obligation once met stays met, classification
    /// is never entered again, and a terminal state is never left.
    pub open spec fn evolves_to(self, later: StreamView) -> bool {
        &&& later.id == self.id
        &&& later.is_local == self.is_local
        &&& self.ty is Some ==> later.ty == self.ty
        &&& self.initialised ==> later.initialised
        &&& self.stream_offset <= later.stream_offset
        &&& self.buf_read_off <= later.buf_read_off
        &&& self.buf_end_pos <= later.buf_end_pos
        &&& self.buf.is_prefix_of(later.buf)
        &&& later.state == StreamState::StreamTypeLen ==> self.state == StreamState::StreamTypeLen
        &&& later.state == StreamState::StreamType ==> self.state == StreamState::StreamTypeLen
            || self.state == StreamState::StreamType
        &&& self.state.is_terminal() ==> later.state == self.state
    }

    /// Looks at the next `n` bytes without consuming them.
    pub open spec fn buf_bytes(self, n: nat) -> Result<Seq<u8>, Error> {
        if n <= self.buffered() {
            Ok(self.unread().subrange(0, n as int))
        } else {
            Err(Error::BufferTooShort)
        }
    }

    /// Consumes one byte.
    pub open spec fn get_u8(self) -> Result<(StreamView, u8), Error> {
        if 1 <= self.buffered() {
            Ok((self.consume(1), self.unread()[0]))
        } else {
            Err(Error::BufferTooShort)
        }
    }

    /// Consumes an integer field of the width set before: the field must
    /// be buffered whole, and must hold the integer that its first byte
    /// announces.
    pub open spec fn get_varint(self) -> Result<(StreamView, nat), Error> {
        if self.next_varint_len <= self.buffered() {
            match decode(self.unread().subrange(0, self.next_varint_len as int)) {
                Some((value, _)) => Ok((self.consume(self.next_varint_len), value)),
                None => Err(Error::BufferTooShort),
            }
        } else {
            Err(Error::BufferTooShort)
        }
    }

    /// Takes the width of the stream-type field.
    pub open spec fn set_stream_type_len(self, len: u8) -> Result<StreamView, Error> {
        if self.state == StreamState::StreamTypeLen {
            Ok(StreamView { ty_len: len, state: StreamState::StreamType, ..self })
        } else {
            Err(Error::InternalError)
        }
    }

    /// How much of the stream-type field is buffered: all of it, or as many
    /// bytes as there are.
    pub open spec fn type_field_buffered(self) -> nat {
        if self.ty_len <= self.buffered() {
            self.ty_len as nat
        } else {
            self.buffered()
        }
    }

    /// How many bytes a step looks at to classify the stream: the
    /// stream-type field, and one byte at least, which holds the tag.
    pub open spec fn tag_span(self) -> nat {
        if self.ty_len == 0 {
            1
        } else {
            self.ty_len as nat
        }
    }

    /// Takes the stream's role and consumes the stream-type field, as far
    /// as it is buffered. In state `StreamType` this always succeeds.
    pub open spec fn set_stream_type(self, ty: Option<StreamType>) -> Result<StreamView, Error> {
        if self.state != StreamState::StreamType {
            Err(Error::InternalError)
        } else {
            Ok(
                StreamView {
                    ty,
                    state: state_after_type(ty),
                    initialised: self.initialised || ty == Some(StreamType::QpackEncoder) || ty
                        == Some(StreamType::QpackDecoder),
                    ..self.consume(self.type_field_buffered())
                },
            )
        }
    }

    /// Takes the width of the integer field that comes next.
    pub open spec fn set_next_varint_len(self, len: nat) -> Result<StreamView, Error> {
        match self.state {
            StreamState::FramePayloadLenLen => Ok(
                StreamView { next_varint_len: len, state: StreamState::FramePayloadLen, ..self },
            ),
            StreamState::FrameTypeLen => Ok(
                StreamView { next_varint_len: len, state: StreamState::FrameType, ..self },
            ),
            StreamState::PushIdLen => Ok(
                StreamView { next_varint_len: len, state: StreamState::PushId, ..self },
            ),
            _ => Err(Error::InternalError),
        }
    }

    /// Takes the push id of a push stream, which then goes on to its
    /// frames.
    pub open spec fn set_push_id(self, id: nat) -> Result<StreamView, Error> {
        if self.ty == Some(StreamType::Push) && self.state == StreamState::PushId {
            Ok(
                StreamView {
                    push_id: Some(id),
                    initialised: true,
                    state: StreamState::FramePayloadLenLen,
                    ..self
                },
            )
        } else {
            Err(Error::InternalError)
        }
    }

    /// Takes the declared payload length of a frame.
    pub open spec fn set_frame_payload_len(self, len: nat) -> Result<StreamView, Error> {
        match self.ty {
            Some(StreamType::QpackEncoder) => Err(Error::UnexpectedFrame),
            Some(StreamType::QpackDecoder) => Err(Error::UnexpectedFrame),
            None => Err(Error::InternalError),
            Some(_) => if self.state == StreamState::FramePayloadLen {
                Ok(StreamView { frame_payload_len: len, state: StreamState::FrameTypeLen, ..self })
            } else {
                Err(Error::InternalError)
            },
        }
    }

    /// Takes the type of a frame. What the role forbids fails first, as a
    /// fault of the peer; a frame that the role admits still fails, as a
    /// fault of the caller, when no frame type is awaited.
    pub open spec fn set_frame_type(self, frame_type: u8) -> Result<StreamView, Error> {
        match frame_verdict(self.ty, self.initialised, frame_type) {
            Err(e) => Err(e),
            Ok(next) => if self.state == StreamState::FrameType {
                Ok(
                    StreamView {
                        frame_type: Some(frame_type),
                        initialised: self.initialised || self.ty == Some(StreamType::Control),
                        state: next,
                        ..self
                    },
                )
            } else {
                Err(Error::InternalError)
            },
        }
    }

    /// Cuts the awaited frame out of the buffer, once its payload is
    /// buffered whole.
    pub open spec fn parse_frame(self) -> Result<(StreamView, FrameView), Error> {
        if self.state != StreamState::FramePayload || self.frame_type is None {
            Err(Error::InternalError)
        } else if self.buffered() < self.frame_payload_len {
            Err(Error::BufferTooShort)
        } else {
            Ok(
                (
                    self.consume(self.frame_payload_len).goto(StreamState::FramePayloadLenLen),
                    FrameView {
                        frame_type: self.frame_type->0,
                        payload: self.unread().subrange(0, self.frame_payload_len as int),
                    },
                ),
            )
        }
    }

    /// One step of the engine on what is buffered: the step that the
    /// state asks for, made of the operations above.
    ///
    /// In `StreamTypeLen` the width of the stream-type field is set to one
    /// byte; in `StreamType` the step waits for the whole field, classifies
    /// its first byte and consumes the field. In `FramePayloadLenLen` and `PushIdLen` the first byte of
    /// the integer gives its width; in `FramePayloadLen` and `PushId` the
    /// integer is consumed and taken. In `FrameTypeLen` the width of the
    /// frame type is set to one byte; in `FrameType` the next byte is
    /// taken as the frame type and, if the stream admits it, consumed. In
    /// `FramePayload` the frame is cut out. The other states have no step.
    ///
    /// A step that fails leaves the stream as it was.
    #[verifier::opaque]
    pub open spec fn step(self) -> Result<(StreamView, Option<FrameView>), Error> {
        match self.state {
            StreamState::StreamTypeLen => match self.set_stream_type_len(1) {
                Ok(next) => Ok((next, None)),
                Err(e) => Err(e),
            },
            StreamState::StreamType => match self.buf_bytes(self.tag_span()) {
                Ok(bytes) => match self.set_stream_type(StreamType::from_tag(bytes[0])) {
                    Ok(next) => Ok((next, None)),
                    Err(e) => Err(e),
                },
                Err(e) => Err(e),
            },
            StreamState::FramePayloadLenLen | StreamState::PushIdLen => match self.buf_bytes(1) {
                Ok(bytes) => match self.set_next_varint_len(varint_len(bytes[0])) {
                    Ok(next) => Ok((next, None)),
                    Err(e) => Err(e),
                },
                Err(e) => Err(e),
            },
            StreamState::FramePayloadLen => match self.get_varint() {
                Ok((taken, value)) => match taken.set_frame_payload_len(value) {
                    Ok(next) => Ok((next, None)),
                    Err(e) => Err(e),
                },
                Err(e) => Err(e),
            },
            StreamState::PushId => match self.get_varint() {
                Ok((taken, value)) => match taken.set_push_id(value) {
                    Ok(next) => Ok((next, None)),
                    Err(e) => Err(e),
                },
                Err(e) => Err(e),
            },
            StreamState::FrameTypeLen => match self.set_next_varint_len(1) {
                Ok(next) => Ok((next, None)),
                Err(e) => Err(e),
            },
            StreamState::FrameType => match self.buf_bytes(1) {
                Ok(bytes) => match self.set_frame_type(bytes[0]) {
                    Ok(next) => Ok((next.consume(1), None)),
                    Err(e) => Err(e),
                },
                Err(e) => Err(e),
            },
            StreamState::FramePayload => match self.parse_frame() {
                Ok((next, frame)) => Ok((next, Some(frame))),
                Err(e) => Err(e),
            },
            StreamState::QpackInstruction => Err(Error::InternalError),
            StreamState::Invalid => Err(Error::InternalError),
            StreamState::Done => Err(Error::InternalError),
        }
    }

    /// Step after step until one fails: the frames delivered on the way,
    /// the state reached, and the failure that ended the run.
    /// `BufferTooShort` means that the engine waits for more bytes.
    #[verifier::opaque]
    pub open spec fn run(self) -> Run
        decreases self.buffered(), rank(self.state),
        when self.wf()
        via Self::run_ends
    {
        match self.step() {
            Err(e) => Run { end: self, frames: Seq::empty(), stop: e },
            Ok((next, frame)) => next.run().after(delivered(frame)),
        }
    }

    /// Why a run ends: every step consumes a byte or moves to a state of
    /// lower rank.
    #[via_fn]
    proof fn run_ends(self) {
        reveal(StreamView::step);
    }

    /// The engine run on what is buffered, and then again after each of
    /// `chunks` has arrived in turn: the frames of all the runs in order,
    /// and the end of the last run.
    pub open spec fn feed(self, chunks: Seq<Seq<u8>>) -> Run
        decreases chunks.len(),
    {
        if chunks.len() == 0 {
            self.run()
        } else {
            let so_far = self.feed(chunks.drop_last());
            so_far.end.append(chunks.last()).run().after(so_far.frames)
        }
    }
}

/// `bytes` cut into chunks of one byte each.
pub open spec fn bytewise(bytes: Seq<u8>) -> Seq<Seq<u8>> {
    Seq::new(bytes.len(), |i: int| seq![bytes[i]])
}

} // verus!
