//! The stream engine: one [`Stream`] per QUIC stream.

use vstd::prelude::*;
use crate::error::Error;
use crate::frame::{
    Frame, DATA_FRAME_TYPE_ID, HEADERS_FRAME_TYPE_ID, PRIORITY_FRAME_TYPE_ID,
    PUSH_PROMISE_FRAME_TYPE_ID, SETTINGS_FRAME_TYPE_ID,
};
use crate::model::{state_after_type, StreamView};
use crate::varint::decode_varint;
use vstd::slice::{slice_subrange, slice_to_vec};

verus! {

pub const HTTP3_CONTROL_STREAM_TYPE_ID: u8 = 0x43;

pub const HTTP3_PUSH_STREAM_TYPE_ID: u8 = 0x50;

pub const QPACK_ENCODER_STREAM_TYPE_ID: u8 = 0x48;

pub const QPACK_DECODER_STREAM_TYPE_ID: u8 = 0x68;

/// The role of a stream.
#[derive(Clone, Copy, Debug, PartialEq, Eq, Structural)]
pub enum StreamType {
    Control,
    Request,
    Push,
    QpackEncoder,
    QpackDecoder,
}

/// Where in the grammar of its stream the engine stands.
#[derive(Clone, Copy, Debug, PartialEq, Eq, Structural)]
pub enum StreamState {
    StreamTypeLen,
    StreamType,
    FrameTypeLen,
    FrameType,
    FramePayloadLenLen,
    FramePayloadLen,
    FramePayload,
    PushIdLen,
    PushId,
    QpackInstruction,
    Invalid,
    Done,
}

impl StreamState {
    /// `Invalid` and `Done` are never left again.
    pub open spec fn is_terminal(self) -> bool {
        self == StreamState::Invalid || self == StreamState::Done
    }

    /// The state's name as text.
    pub open spec fn label(self) -> Seq<char> {
        match self {
            StreamState::StreamTypeLen => "StreamTypeLen"@,
            StreamState::StreamType => "StreamType"@,
            StreamState::FrameTypeLen => "FrameTypeLen"@,
            StreamState::FrameType => "FrameType"@,
            StreamState::FramePayloadLenLen => "FramePayloadLenLen"@,
            StreamState::FramePayloadLen => "FramePayloadLen"@,
            StreamState::FramePayload => "FramePayload"@,
            StreamState::PushIdLen => "PushIdLen"@,
            StreamState::PushId => "PushId"@,
            StreamState::QpackInstruction => "QpackInstruction"@,
            StreamState::Invalid => "Invalid"@,
            StreamState::Done => "Done"@,
        }
    }

    /// The state's name, for logs and messages.
    pub fn name(&self) -> (r: &'static str)
        ensures
            r@ == self.label(),
    {
        match self {
            StreamState::StreamTypeLen => "StreamTypeLen",
            StreamState::StreamType => "StreamType",
            StreamState::FrameTypeLen => "FrameTypeLen",
            StreamState::FrameType => "FrameType",
            StreamState::FramePayloadLenLen => "FramePayloadLenLen",
            StreamState::FramePayloadLen => "FramePayloadLen",
            StreamState::FramePayload => "FramePayload",
            StreamState::PushIdLen => "PushIdLen",
            StreamState::PushId => "PushId",
            StreamState::QpackInstruction => "QpackInstruction",
            StreamState::Invalid => "Invalid",
            StreamState::Done => "Done",
        }
    }
}

impl StreamType {
    /// The role that a type tag announces, if it announces one.
    pub open spec fn from_tag(v: u8) -> Option<StreamType> {
        if v == HTTP3_CONTROL_STREAM_TYPE_ID {
            Some(StreamType::Control)
        } else if v == HTTP3_PUSH_STREAM_TYPE_ID {
            Some(StreamType::Push)
        } else if v == QPACK_ENCODER_STREAM_TYPE_ID {
            Some(StreamType::QpackEncoder)
        } else if v == QPACK_DECODER_STREAM_TYPE_ID {
            Some(StreamType::QpackDecoder)
        } else {
            None
        }
    }

    /// The tag that announces a role. Request streams are bidirectional
    /// and carry no tag.
    pub open spec fn tag(self) -> Option<u8> {
        match self {
            StreamType::Control => Some(HTTP3_CONTROL_STREAM_TYPE_ID),
            StreamType::Push => Some(HTTP3_PUSH_STREAM_TYPE_ID),
            StreamType::QpackEncoder => Some(QPACK_ENCODER_STREAM_TYPE_ID),
            StreamType::QpackDecoder => Some(QPACK_DECODER_STREAM_TYPE_ID),
            StreamType::Request => None,
        }
    }

    /// Roles whose streams carry frames.
    pub open spec fn is_framed(self) -> bool {
        self == StreamType::Control || self == StreamType::Request || self == StreamType::Push
    }

    /// The role as text.
    pub open spec fn label(self) -> Seq<char> {
        match self {
            StreamType::Control => "Control stream"@,
            StreamType::Request => "Request stream"@,
            StreamType::Push => "Push stream"@,
            StreamType::QpackEncoder => "QPACK encoder stream"@,
            StreamType::QpackDecoder => "QPACK decoder stream"@,
        }
    }

    /// Classifies the type tag of a unidirectional stream. An unknown tag
    /// is not an error here: it gives `None`, and the caller decides.
    pub fn deserialize(v: u8) -> (r: Option<StreamType>)
        ensures
            r == StreamType::from_tag(v),
    {
        match v {
            HTTP3_CONTROL_STREAM_TYPE_ID => Some(StreamType::Control),
            HTTP3_PUSH_STREAM_TYPE_ID => Some(StreamType::Push),
            QPACK_ENCODER_STREAM_TYPE_ID => Some(StreamType::QpackEncoder),
            QPACK_DECODER_STREAM_TYPE_ID => Some(StreamType::QpackDecoder),
            _ => None,
        }
    }

    /// The tag to send for a role; `None` for a request stream.
    pub fn _serialize(ty: StreamType) -> (r: Option<u8>)
        ensures
            r == ty.tag(),
    {
        match ty {
            StreamType::Control => Some(HTTP3_CONTROL_STREAM_TYPE_ID),
            StreamType::Push => Some(HTTP3_PUSH_STREAM_TYPE_ID),
            StreamType::QpackEncoder => Some(QPACK_ENCODER_STREAM_TYPE_ID),
            StreamType::QpackDecoder => Some(QPACK_DECODER_STREAM_TYPE_ID),
            _ => None,
        }
    }

    /// The role, for logs and messages.
    pub fn name(&self) -> (r: &'static str)
        ensures
            r@ == self.label(),
    {
        match self {
            StreamType::Control => "Control stream",
            StreamType::Request => "Request stream",
            StreamType::Push => "Push stream",
            StreamType::QpackEncoder => "QPACK encoder stream",
            StreamType::QpackDecoder => "QPACK decoder stream",
        }
    }
}

/// In QUIC the second-lowest bit of a stream id is clear on bidirectional
/// streams and set on unidirectional ones.
pub open spec fn bidi(id: u64) -> bool {
    id % 4 < 2
}

/// Tells whether `id` names a bidirectional stream.
pub fn is_bidi(id: u64) -> (r: bool)
    ensures
        r == bidi(id),
{
    id % 4 < 2
}

/// The engine of one QUIC stream: a receive buffer with a read cursor, and
/// the position reached in the stream's grammar.
pub struct Stream {
    id: u64,
    ty: Option<StreamType>,
    is_local: bool,
    initialised: bool,
    ty_len: u8,
    state: StreamState,
    stream_offset: u64,
    buf: Vec<u8>,
    buf_read_off: u64,
    buf_end_pos: u64,
    next_varint_len: usize,
    frame_payload_len: u64,
    frame_type: Option<u8>,
    push_id: Option<u64>,
}

impl View for Stream {
    type V = StreamView;

    closed spec fn view(&self) -> StreamView {
        StreamView {
            id: self.id,
            is_local: self.is_local,
            ty: self.ty,
            initialised: self.initialised,
            ty_len: self.ty_len,
            state: self.state,
            stream_offset: self.stream_offset as nat,
            buf: self.buf@,
            buf_read_off: self.buf_read_off as nat,
            buf_end_pos: self.buf_end_pos as nat,
            next_varint_len: self.next_varint_len as nat,
            frame_payload_len: self.frame_payload_len as nat,
            frame_type: self.frame_type,
            push_id: match self.push_id {
                Some(id) => Some(id as nat),
                None => None,
            },
        }
    }
}

impl Stream {
    /// The invariant that every operation keeps.
    pub open spec fn wf(&self) -> bool {
        self@.wf()
    }

    /// Makes the engine for the stream `id`, with nothing received yet.
    pub fn new(id: u64, is_local: bool) -> (r: Result<Stream, Error>)
        ensures
            r is Ok,
            r->Ok_0@ == StreamView::initial(id, is_local),
            r->Ok_0.wf(),
    {
        let mut ty = None;
        let mut initialised = false;
        let mut state = StreamState::StreamTypeLen;
        if is_bidi(id) {
            ty = Some(StreamType::Request);
            initialised = true;
            state = StreamState::FramePayloadLenLen;
        }
        Ok(
            Stream {
                id,
                ty,
                is_local,
                initialised,
                ty_len: 0,
                state,
                stream_offset: 0,
                buf: Vec::new(),
                buf_read_off: 0,
                buf_end_pos: 0,
                next_varint_len: 0,
                frame_payload_len: 0,
                frame_type: None,
                push_id: None,
            },
        )
    }

    /// The stream's role, `None` until it is known.
    pub fn get_stream_type(&self) -> (r: &Option<StreamType>)
        ensures
            *r == self@.ty,
    {
        &self.ty
    }

    /// The position reached in the stream's grammar.
    pub fn get_stream_state(&mut self) -> (r: &StreamState)
        ensures
            *r == old(self)@.state,
            final(self)@ == old(self)@,
    {
        &self.state
    }

    /// The width of the stream-type field, as it was set.
    pub fn _type_len(&self) -> (r: u8)
        ensures
            r == self@.ty_len,
    {
        self.ty_len
    }

    /// The QUIC stream id.
    pub fn id(&self) -> (r: u64)
        ensures
            r == self@.id,
    {
        self.id
    }

    /// Whether the stream has met its opening obligation.
    pub fn is_initialised(&self) -> (r: bool)
        ensures
            r == self@.initialised,
    {
        self.initialised
    }

    /// How many bytes have been consumed since the stream began.
    pub fn stream_offset(&self) -> (r: u64)
        ensures
            r == self@.stream_offset,
    {
        self.stream_offset
    }

    /// Index in the buffer of the next byte to consume.
    pub fn buf_read_off(&self) -> (r: u64)
        ensures
            r == self@.buf_read_off,
    {
        self.buf_read_off
    }

    /// Index in the buffer one past the last byte received.
    pub fn buf_end_pos(&self) -> (r: u64)
        ensures
            r == self@.buf_end_pos,
    {
        self.buf_end_pos
    }

    /// How many bytes are received and not yet consumed. A caller that
    /// caps the memory of a connection reads its figure here.
    pub fn buffered(&self) -> (r: u64)
        requires
            self.wf(),
        ensures
            r == self@.buffered(),
    {
        self.buf_end_pos - self.buf_read_off
    }

    /// The push id of a push stream, once it has been read.
    pub fn push_id(&self) -> (r: Option<u64>)
        ensures
            match r {
                Some(id) => self@.push_id == Some(id as nat),
                None => self@.push_id is None,
            },
    {
        self.push_id
    }

    /// Looks at the next `size` bytes without consuming them. Fails with
    /// `BufferTooShort` when fewer are buffered.
    pub fn buf_bytes(&mut self, size: usize) -> (r: Result<&[u8], Error>)
        requires
            old(self).wf(),
        ensures
            final(self)@ == old(self)@,
            match old(self)@.buf_bytes(size as nat) {
                Ok(bytes) => r is Ok && r->Ok_0@ == bytes,
                Err(e) => r == Err::<&[u8], Error>(e),
            },
    {
        let available = self.buf.len() - self.buf_read_off as usize;
        if size <= available {
            let start = self.buf_read_off as usize;
            let bytes = slice_subrange(self.buf.as_slice(), start, start + size);
            proof {
                assert(bytes@ =~= self@.unread().subrange(0, size as int));
            }
            return Ok(bytes);
        }
        Err(Error::BufferTooShort)
    }

    /// Appends the bytes of `d` to the buffer and leaves `d` empty.
    /// Nothing is consumed and the state is kept.
    pub fn add_data(&mut self, d: &mut Vec<u8>) -> (r: Result<(), Error>)
        requires
            old(self).wf(),
        ensures
            final(self).wf(),
            r is Ok,
            final(self)@ == old(self)@.append(old(d)@),
            old(self)@.evolves_to(final(self)@),
            final(d)@ == Seq::<u8>::empty(),
    {
        self.buf.append(d);
        self.buf_end_pos = self.buf.len() as u64;
        Ok(())
    }

    /// Takes the width of the stream-type field. Only a stream in state
    /// `StreamTypeLen` expects it; elsewhere the call fails with
    /// `InternalError`.
    pub fn set_stream_type_len(&mut self, len: u8) -> (r: Result<(), Error>)
        requires
            old(self).wf(),
        ensures
            final(self).wf(),
            old(self)@.evolves_to(final(self)@),
            match old(self)@.set_stream_type_len(len) {
                Ok(next) => r == Ok::<(), Error>(()) && final(self)@ == next,
                Err(e) => r == Err::<(), Error>(e) && final(self)@ == old(self)@,
            },
    {
        match self.state {
            StreamState::StreamTypeLen => {
                self.ty_len = len;
                self.do_state_transition(StreamState::StreamType);
                Ok(())
            },
            _ => Err(Error::InternalError),
        }
    }

    /// Takes the stream's role and consumes the stream-type field.
    ///
    /// Only a stream in state `StreamType` expects it (`InternalError`
    /// elsewhere); there it always succeeds. Control and request streams go
    /// on to their frames, a push stream to its push id, a QPACK stream to
    /// its instructions, and a stream of unknown role (`None`) to
    /// `Invalid`. The read cursor and the stream offset move on by the
    /// width of the stream-type field, and where less of the field is
    /// buffered, by what is buffered of it: the cursor never passes the
    /// end of what was received.
    pub fn set_stream_type(&mut self, ty: Option<StreamType>) -> (r: Result<(), Error>)
        requires
            old(self).wf(),
        ensures
            final(self).wf(),
            old(self)@.evolves_to(final(self)@),
            match old(self)@.set_stream_type(ty) {
                Ok(next) => r == Ok::<(), Error>(()) && final(self)@ == next,
                Err(e) => r == Err::<(), Error>(e) && final(self)@ == old(self)@,
            },
            old(self)@.state == StreamState::StreamType ==> r == Ok::<(), Error>(())
                && final(self)@.state == state_after_type(ty) && final(self)@.ty == ty,
    {
        match self.state {
            StreamState::StreamType => {},
            _ => {
                return Err(Error::InternalError);
            },
        }
        let available = self.buf_end_pos - self.buf_read_off;
        let taken = if self.ty_len as u64 <= available {
            self.ty_len as u64
        } else {
            available
        };
        self.ty = ty;
        self.stream_offset += taken;
        self.buf_read_off += taken;
        match ty {
            Some(StreamType::Request) => {
                self.do_state_transition(StreamState::FramePayloadLenLen);
            },
            Some(StreamType::Control) => {
                self.do_state_transition(StreamState::FramePayloadLenLen);
            },
            Some(StreamType::Push) => {
                self.do_state_transition(StreamState::PushIdLen);
            },
            Some(StreamType::QpackEncoder) | Some(StreamType::QpackDecoder) => {
                self.do_state_transition(StreamState::QpackInstruction);
                self.initialised = true;
            },
            None => {
                self.do_state_transition(StreamState::Invalid);
            },
        }
        Ok(())
    }

    /// Takes the width of the integer field that comes next: the payload
    /// length in state `FramePayloadLenLen`, the frame type in
    /// `FrameTypeLen`, the push id in `PushIdLen`. In any other state the
    /// call fails with `InternalError`.
    pub fn set_next_varint_len(&mut self, len: usize) -> (r: Result<(), Error>)
        requires
            old(self).wf(),
        ensures
            final(self).wf(),
            old(self)@.evolves_to(final(self)@),
            match old(self)@.set_next_varint_len(len as nat) {
                Ok(next) => r == Ok::<(), Error>(()) && final(self)@ == next,
                Err(e) => r == Err::<(), Error>(e) && final(self)@ == old(self)@,
            },
    {
        match self.state {
            StreamState::FramePayloadLenLen => {
                self.next_varint_len = len;
                self.do_state_transition(StreamState::FramePayloadLen);
                Ok(())
            },
            StreamState::FrameTypeLen => {
                self.next_varint_len = len;
                self.do_state_transition(StreamState::FrameType);
                Ok(())
            },
            StreamState::PushIdLen => {
                self.next_varint_len = len;
                self.do_state_transition(StreamState::PushId);
                Ok(())
            },
            _ => Err(Error::InternalError),
        }
    }

    /// Consumes the integer field whose width was set before and returns
    /// its value. Fails with `BufferTooShort`, and consumes nothing, when
    /// the field is not buffered whole or is narrower than the integer
    /// that its first byte announces.
    pub fn get_varint(&mut self) -> (r: Result<u64, Error>)
        requires
            old(self).wf(),
        ensures
            final(self).wf(),
            old(self)@.evolves_to(final(self)@),
            match old(self)@.get_varint() {
                Ok((next, value)) => r == Ok::<u64, Error>(value as u64) && value <= u64::MAX
                    && final(self)@ == next,
                Err(e) => r == Err::<u64, Error>(e) && final(self)@ == old(self)@,
            },
    {
        let start = self.buf_read_off as usize;
        if self.buf.len() - start < self.next_varint_len {
            return Err(Error::BufferTooShort);
        }
        let field = slice_subrange(self.buf.as_slice(), start, start + self.next_varint_len);
        proof {
            assert(field@ =~= self@.unread().subrange(0, self.next_varint_len as int));
        }
        match decode_varint(field) {
            Ok((value, _)) => {
                self.stream_offset += self.next_varint_len as u64;
                self.buf_read_off += self.next_varint_len as u64;
                Ok(value)
            },
            Err(_) => Err(Error::BufferTooShort),
        }
    }

    /// Consumes one byte and returns it. Fails with `BufferTooShort` when
    /// none is buffered.
    pub fn get_u8(&mut self) -> (r: Result<u8, Error>)
        requires
            old(self).wf(),
        ensures
            final(self).wf(),
            old(self)@.evolves_to(final(self)@),
            match old(self)@.get_u8() {
                Ok((next, byte)) => r == Ok::<u8, Error>(byte) && final(self)@ == next,
                Err(e) => r == Err::<u8, Error>(e) && final(self)@ == old(self)@,
            },
    {
        let ret = self.buf_bytes(1)?[0];
        self.stream_offset += 1;
        self.buf_read_off += 1;
        Ok(ret)
    }

    /// Takes the push id of a push stream. The stream keeps the id, is
    /// initialised from then on, and goes on to its frames. Only a push
    /// stream in state `PushId` expects it; elsewhere the call fails with
    /// `InternalError`.
    pub fn _set_push_id(&mut self, id: u64) -> (r: Result<(), Error>)
        requires
            old(self).wf(),
        ensures
            final(self).wf(),
            old(self)@.evolves_to(final(self)@),
            match old(self)@.set_push_id(id as nat) {
                Ok(next) => r == Ok::<(), Error>(()) && final(self)@ == next,
                Err(e) => r == Err::<(), Error>(e) && final(self)@ == old(self)@,
            },
    {
        match self.state {
            StreamState::PushId => {
                self.push_id = Some(id);
                self.initialised = true;
                self.do_state_transition(StreamState::FramePayloadLenLen);
                Ok(())
            },
            _ => Err(Error::InternalError),
        }
    }

    /// Takes the declared payload length of the frame whose header is
    /// being read. A QPACK stream carries no frames: `UnexpectedFrame`.
    /// Otherwise only a stream in state `FramePayloadLen` expects it;
    /// elsewhere the call fails with `InternalError`.
    pub fn set_frame_payload_len(&mut self, len: u64) -> (r: Result<(), Error>)
        requires
            old(self).wf(),
        ensures
            final(self).wf(),
            old(self)@.evolves_to(final(self)@),
            match old(self)@.set_frame_payload_len(len as nat) {
                Ok(next) => r == Ok::<(), Error>(()) && final(self)@ == next,
                Err(e) => r == Err::<(), Error>(e) && final(self)@ == old(self)@,
            },
    {
        match self.ty {
            Some(StreamType::QpackEncoder) | Some(StreamType::QpackDecoder) => {
                return Err(Error::UnexpectedFrame);
            },
            None => {
                return Err(Error::InternalError);
            },
            Some(_) => {},
        }
        match self.state {
            StreamState::FramePayloadLen => {
                self.frame_payload_len = len;
                self.do_state_transition(StreamState::FrameTypeLen);
                Ok(())
            },
            _ => Err(Error::InternalError),
        }
    }

    /// The declared payload length of the frame being read.
    pub fn _get_frame_payload_len(&self) -> (r: u64)
        ensures
            r == self@.frame_payload_len,
    {
        self.frame_payload_len
    }

    fn do_state_transition(&mut self, s: StreamState)
        ensures
            final(self)@ == old(self)@.goto(s),
    {
        self.state = s;
    }

    /// Takes the type of the frame whose header is being read.
    ///
    /// What the stream's role forbids fails first and leaves the stream as
    /// it was: on a control stream any frame before SETTINGS
    /// (`MissingSettings`) and a second SETTINGS (`UnexpectedFrame`), on a
    /// request stream every type but HEADERS, DATA, PRIORITY and
    /// PUSH_PROMISE (`UnexpectedFrame`), on a QPACK stream every type
    /// (`UnexpectedFrame`). A type that the role admits is taken only in
    /// state `FrameType`; elsewhere the call fails with `InternalError`.
    /// On success control and request streams await the payload, and a
    /// control stream is initialised from then on; a push stream goes
    /// straight on to the next frame header.
    pub fn set_frame_type(&mut self, ty: u8) -> (r: Result<(), Error>)
        requires
            old(self).wf(),
        ensures
            final(self).wf(),
            old(self)@.evolves_to(final(self)@),
            match old(self)@.set_frame_type(ty) {
                Ok(next) => r == Ok::<(), Error>(()) && final(self)@ == next,
                Err(e) => r == Err::<(), Error>(e) && final(self)@ == old(self)@,
            },
            old(self)@.ty == Some(StreamType::Control) && !old(self)@.initialised && ty
                != SETTINGS_FRAME_TYPE_ID ==> r == Err::<(), Error>(Error::MissingSettings)
                && final(self)@ == old(self)@,
            old(self)@.ty == Some(StreamType::Control) && old(self)@.initialised && ty
                == SETTINGS_FRAME_TYPE_ID ==> r == Err::<(), Error>(Error::UnexpectedFrame)
                && final(self)@ == old(self)@,
            old(self)@.ty == Some(StreamType::Request) && ty != HEADERS_FRAME_TYPE_ID && ty
                != DATA_FRAME_TYPE_ID && ty != PRIORITY_FRAME_TYPE_ID && ty
                != PUSH_PROMISE_FRAME_TYPE_ID ==> r == Err::<(), Error>(Error::UnexpectedFrame)
                && final(self)@ == old(self)@,
    {
        let mut next = StreamState::FramePayload;
        match self.ty {
            Some(StreamType::Control) => {
                if !self.initialised {
                    if ty != SETTINGS_FRAME_TYPE_ID {
                        return Err(Error::MissingSettings);
                    }
                } else {
                    if ty == SETTINGS_FRAME_TYPE_ID {
                        return Err(Error::UnexpectedFrame);
                    }
                }
            },
            Some(StreamType::Request) => {
                match ty {
                    HEADERS_FRAME_TYPE_ID
                    | DATA_FRAME_TYPE_ID
                    | PRIORITY_FRAME_TYPE_ID
                    | PUSH_PROMISE_FRAME_TYPE_ID => {},
                    _ => {
                        return Err(Error::UnexpectedFrame);
                    },
                }
            },
            Some(StreamType::Push) => {
                next = StreamState::FramePayloadLenLen;
            },
            Some(StreamType::QpackEncoder) | Some(StreamType::QpackDecoder) => {
                return Err(Error::UnexpectedFrame);
            },
            None => {
                return Err(Error::InternalError);
            },
        }
        match self.state {
            StreamState::FrameType => {},
            _ => {
                return Err(Error::InternalError);
            },
        }
        self.frame_type = Some(ty);
        if let Some(StreamType::Control) = self.ty {
            self.initialised = true;
        }
        self.do_state_transition(next);
        Ok(())
    }

    /// The type of the frame being read, `None` while no frame type has
    /// been taken.
    pub fn frame_type(&self) -> (r: Option<u8>)
        ensures
            r == self@.frame_type,
    {
        self.frame_type
    }

    /// The type of the frame being read. There must be one, which
    /// `frame_type` tells.
    pub fn _get_frame_type(&self) -> (r: u8)
        requires
            self@.frame_type is Some,
        ensures
            Some(r) == self@.frame_type,
    {
        match self.frame_type {
            Some(ty) => ty,
            None => 0,
        }
    }

    /// Cuts the awaited frame out of the buffer.
    ///
    /// Only a stream in state `FramePayload` expects it (`InternalError`
    /// elsewhere). While fewer bytes are buffered than the frame declared,
    /// the call fails with `BufferTooShort` and changes nothing. Once the
    /// payload is buffered whole, the frame is returned with its type and
    /// exactly the declared number of payload bytes, these bytes are
    /// consumed, and the stream awaits the next frame header.
    pub fn parse_frame(&mut self) -> (r: Result<Frame, Error>)
        requires
            old(self).wf(),
        ensures
            final(self).wf(),
            old(self)@.evolves_to(final(self)@),
            match old(self)@.parse_frame() {
                Ok((next, frame)) => r is Ok && r->Ok_0@ == frame && final(self)@ == next,
                Err(e) => r == Err::<Frame, Error>(e) && final(self)@ == old(self)@,
            },
            old(self)@.state == StreamState::FramePayload && old(self)@.buffered() < old(
                self,
            )@.frame_payload_len ==> r == Err::<Frame, Error>(Error::BufferTooShort)
                && final(self)@ == old(self)@,
            r is Ok ==> final(self)@.buf_read_off == old(self)@.buf_read_off + old(
                self,
            )@.frame_payload_len && final(self)@.stream_offset == old(self)@.stream_offset
                + old(self)@.frame_payload_len,
    {
        match self.state {
            StreamState::FramePayload => {},
            _ => {
                return Err(Error::InternalError);
            },
        }
        let frame_type = match self.frame_type {
            Some(ty) => ty,
            None => {
                return Err(Error::InternalError);
            },
        };
        let available = self.buf.len() - self.buf_read_off as usize;
        if (available as u64) < self.frame_payload_len {
            return Err(Error::BufferTooShort);
        }
        let payload = slice_to_vec(self.buf_bytes(self.frame_payload_len as usize)?);
        self.buf_read_off += self.frame_payload_len;
        self.stream_offset += self.frame_payload_len;
        self.do_state_transition(StreamState::FramePayloadLenLen);
        Ok(Frame { frame_type, payload })
    }

    /// Tells whether at least one byte is buffered and not yet consumed.
    pub fn more(&self) -> (r: bool)
        requires
            self.wf(),
        ensures
            r == (self@.buffered() > 0),
    {
        self.buf_end_pos > self.buf_read_off
    }
}

} // verus!
