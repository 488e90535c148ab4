//! Streams as they are written, and that the engine reads them back.
//!
//! A frame is written as its payload length, its type and its payload. The
//! length is a variable-length integer, in any of the widths that can hold
//! it; the type is one byte. A unidirectional stream begins with the one
//! byte that announces its role.

use vstd::prelude::*;
use crate::error::Error;
use crate::frame::{allowed_on_request, FrameView, SETTINGS_FRAME_TYPE_ID};
use crate::laws::{
    lemma_append_wf, lemma_chunking_invariance, lemma_run_unfolds, lemma_step_progress,
};
use crate::model::{frame_verdict, StreamView};
use crate::stream::{bidi, StreamState, StreamType, HTTP3_CONTROL_STREAM_TYPE_ID};
use crate::varint::{
    capacity, decode, is_width, lemma_varint_roundtrip, varint_field, varint_len, varint_value,
};

verus! {

/// A frame together with the bytes that spell its payload length.
pub struct Written {
    /// The length field, as it stands on the wire.
    pub length: Seq<u8>,
    /// The frame.
    pub frame: FrameView,
}

impl Written {
    /// The length field is a whole integer field and holds the length of
    /// the payload.
    pub open spec fn valid(self) -> bool {
        &&& self.length.len() > 0
        &&& self.length.len() == varint_len(self.length[0])
        &&& varint_value(self.length) == self.frame.payload.len()
    }

    /// The frame on the wire: length, type, payload.
    pub open spec fn bytes(self) -> Seq<u8> {
        self.length + seq![self.frame.frame_type] + self.frame.payload
    }
}

/// The frames of `written`, in order.
pub open spec fn frames_of(written: Seq<Written>) -> Seq<FrameView> {
    written.map_values(|w: Written| w.frame)
}

/// The frames of `written` on the wire, one after another.
pub open spec fn bytes_of(written: Seq<Written>) -> Seq<u8>
    decreases written.len(),
{
    if written.len() == 0 {
        Seq::empty()
    } else {
        written.first().bytes() + bytes_of(written.drop_first())
    }
}

/// Every length field is whole and right.
pub open spec fn all_valid(written: Seq<Written>) -> bool {
    forall|i: int| 0 <= i < written.len() ==> (#[trigger] written[i]).valid()
}

/// What a control stream may carry: SETTINGS first, and never again.
pub open spec fn control_sequence(frames: Seq<FrameView>) -> bool {
    &&& frames.len() > 0 ==> frames[0].frame_type == SETTINGS_FRAME_TYPE_ID
    &&& forall|i: int|
        1 <= i < frames.len() ==> (#[trigger] frames[i]).frame_type != SETTINGS_FRAME_TYPE_ID
}

/// What a request stream may carry: frames of its four types.
pub open spec fn request_sequence(frames: Seq<FrameView>) -> bool {
    forall|i: int| 0 <= i < frames.len() ==> allowed_on_request((#[trigger] frames[i]).frame_type)
}

/// A stream of role `ty` admits `frames` one after another, each with
/// its payload.
pub open spec fn admitted(ty: Option<StreamType>, initialised: bool, frames: Seq<FrameView>) -> bool
    decreases frames.len(),
{
    frames.len() == 0 || (frame_verdict(ty, initialised, frames.first().frame_type) == Ok::<
        StreamState,
        Error,
    >(StreamState::FramePayload) && admitted(
        ty,
        initialised || ty == Some(StreamType::Control),
        frames.drop_first(),
    ))
}

/// The stream after it has read the header of the frame `w` from a frame
/// boundary.
pub open spec fn after_header(s: StreamView, w: Written) -> StreamView {
    StreamView {
        state: StreamState::FramePayload,
        next_varint_len: 1,
        frame_payload_len: w.frame.payload.len(),
        frame_type: Some(w.frame.frame_type),
        initialised: s.initialised || s.ty == Some(StreamType::Control),
        ..s.consume(w.length.len() + 1)
    }
}

/// The stream after it has read the frame `w` from a frame boundary.
pub open spec fn after_frame(s: StreamView, w: Written) -> StreamView {
    StreamView {
        state: StreamState::FramePayloadLenLen,
        next_varint_len: 1,
        frame_payload_len: w.frame.payload.len(),
        frame_type: Some(w.frame.frame_type),
        initialised: s.initialised || s.ty == Some(StreamType::Control),
        ..s.consume(w.bytes().len())
    }
}

/// Every frame can be written: in any width that can hold the length of
/// its payload, the field that holds that length makes the frame valid.
pub proof fn lemma_frame_can_be_written(frame: FrameView, width: nat)
    requires
        is_width(width),
        frame.payload.len() < capacity(width),
    ensures
        (Written { length: varint_field(frame.payload.len(), width), frame }).valid(),
{
    lemma_varint_roundtrip(frame.payload.len(), width, Seq::empty());
}

/// At a frame boundary, with the header of a frame buffered that the
/// stream admits, a run reads the header and goes on to the payload.
pub proof fn lemma_reads_header(s: StreamView, w: Written, rest: Seq<u8>)
    requires
        s.wf(),
        s.state == StreamState::FramePayloadLenLen,
        w.valid(),
        s.unread() == w.bytes() + rest,
        frame_verdict(s.ty, s.initialised, w.frame.frame_type) == Ok::<StreamState, Error>(
            StreamState::FramePayload,
        ),
    ensures
        after_header(s, w).wf(),
        after_header(s, w).unread() == w.frame.payload + rest,
        s.run() == after_header(s, w).run(),
{
    let length = w.length;
    let n = length.len();
    let payload = w.frame.payload;
    let ty = w.frame.frame_type;
    let unread = s.unread();
    assert(unread.len() == n + 1 + payload.len() + rest.len());

    let s1 = StreamView { next_varint_len: n, state: StreamState::FramePayloadLen, ..s };
    assert(s.step() == Ok::<(StreamView, Option<FrameView>), Error>((s1, None))) by {
        reveal(StreamView::step);
        assert(unread.subrange(0, 1)[0] == length[0]);
    }
    lemma_step_progress(s);
    lemma_run_unfolds(s);

    let s2 = StreamView {
        frame_payload_len: payload.len(),
        state: StreamState::FrameTypeLen,
        ..s1.consume(n)
    };
    assert(s1.step() == Ok::<(StreamView, Option<FrameView>), Error>((s2, None))) by {
        reveal(StreamView::step);
        assert(s1.unread() == unread);
        assert(unread.subrange(0, n as int) =~= length);
        assert(length.subrange(0, n as int) =~= length);
        assert(decode(length) == Some((payload.len(), n)));
    }
    lemma_step_progress(s1);
    lemma_run_unfolds(s1);

    let s3 = StreamView { next_varint_len: 1, state: StreamState::FrameType, ..s2 };
    assert(s2.step() == Ok::<(StreamView, Option<FrameView>), Error>((s3, None))) by {
        reveal(StreamView::step);
    }
    lemma_step_progress(s2);
    lemma_run_unfolds(s2);

    let s4 = after_header(s, w);
    assert(s3.unread() =~= seq![ty] + payload + rest) by {
        assert(s3.unread() =~= unread.subrange(n as int, unread.len() as int));
        assert(unread.subrange(n as int, unread.len() as int) =~= seq![ty] + payload + rest);
    }
    assert(s3.step() == Ok::<(StreamView, Option<FrameView>), Error>((s4, None))) by {
        reveal(StreamView::step);
        assert(s3.unread().subrange(0, 1)[0] == ty);
    }
    lemma_step_progress(s3);
    lemma_run_unfolds(s3);

    assert(s4.unread() =~= payload + rest) by {
        assert(s4.unread() =~= unread.subrange(n + 1 as int, unread.len() as int));
        assert(unread.subrange(n + 1 as int, unread.len() as int) =~= payload + rest);
    }
    assert(s4.run().after(Seq::empty()).frames =~= s4.run().frames);
}

/// At a frame boundary, with a whole frame buffered that the stream
/// admits, a run delivers that frame first and goes on behind it.
pub proof fn lemma_reads_one_frame(s: StreamView, w: Written, rest: Seq<u8>)
    requires
        s.wf(),
        s.state == StreamState::FramePayloadLenLen,
        w.valid(),
        s.unread() == w.bytes() + rest,
        frame_verdict(s.ty, s.initialised, w.frame.frame_type) == Ok::<StreamState, Error>(
            StreamState::FramePayload,
        ),
    ensures
        after_frame(s, w).wf(),
        after_frame(s, w).unread() == rest,
        s.run() == after_frame(s, w).run().after(seq![w.frame]),
{
    let payload = w.frame.payload;
    let s4 = after_header(s, w);
    let s5 = after_frame(s, w);
    lemma_reads_header(s, w, rest);
    assert(s4.step() == Ok::<(StreamView, Option<FrameView>), Error>((s5, Some(w.frame)))) by {
        reveal(StreamView::step);
        assert(s4.unread().subrange(0, payload.len() as int) =~= payload);
    }
    lemma_step_progress(s4);
    lemma_run_unfolds(s4);
    assert(s5.unread() =~= rest) by {
        assert(s5.unread() =~= s4.unread().subrange(
            payload.len() as int,
            s4.unread().len() as int,
        ));
    }
}

/// At a frame boundary, with nothing buffered but whole frames that the
/// stream admits one after another, a run delivers exactly these frames,
/// consumes every byte, and stops at the next frame boundary to wait for
/// more.
pub proof fn lemma_reads_frames(s: StreamView, written: Seq<Written>)
    requires
        s.wf(),
        s.state == StreamState::FramePayloadLenLen,
        all_valid(written),
        s.unread() == bytes_of(written),
        admitted(s.ty, s.initialised, frames_of(written)),
    ensures
        s.run().frames == frames_of(written),
        s.run().stop == Error::BufferTooShort,
        s.run().end.state == StreamState::FramePayloadLenLen,
        s.run().end.ty == s.ty,
        s.run().end.buffered() == 0,
        s.run().end.stream_offset == s.stream_offset + bytes_of(written).len(),
    decreases written.len(),
{
    if written.len() == 0 {
        assert(s.step() == Err::<(StreamView, Option<FrameView>), Error>(Error::BufferTooShort))
            by {
            reveal(StreamView::step);
        }
        lemma_run_unfolds(s);
        assert(s.run().frames =~= frames_of(written));
    } else {
        let w = written.first();
        let later = written.drop_first();
        assert(frames_of(written).first() == w.frame);
        assert(frames_of(written).drop_first() =~= frames_of(later));
        lemma_reads_one_frame(s, w, bytes_of(later));
        lemma_reads_frames(after_frame(s, w), later);
        assert(seq![w.frame] + frames_of(later) =~= frames_of(written));
    }
}

/// A control sequence is what a control stream admits from its start.
pub proof fn lemma_control_sequence_admitted(frames: Seq<FrameView>, initialised: bool)
    requires
        if initialised {
            forall|i: int|
                0 <= i < frames.len() ==> (#[trigger] frames[i]).frame_type
                    != SETTINGS_FRAME_TYPE_ID
        } else {
            control_sequence(frames)
        },
    ensures
        admitted(Some(StreamType::Control), initialised, frames),
    decreases frames.len(),
{
    if frames.len() > 0 {
        let later = frames.drop_first();
        assert(forall|i: int| 0 <= i < later.len() ==> later[i] == frames[i + 1]);
        lemma_control_sequence_admitted(later, true);
    }
}

/// A request sequence is what a request stream admits.
pub proof fn lemma_request_sequence_admitted(frames: Seq<FrameView>, initialised: bool)
    requires
        request_sequence(frames),
    ensures
        admitted(Some(StreamType::Request), initialised, frames),
    decreases frames.len(),
{
    if frames.len() > 0 {
        let later = frames.drop_first();
        assert(forall|i: int| 0 <= i < later.len() ==> later[i] == frames[i + 1]);
        lemma_request_sequence_admitted(later, initialised);
    }
}

/// A control stream is read back as it was written. Let a fresh
/// unidirectional stream receive the control tag and then a SETTINGS frame
/// and any number of other frames, cut into chunks in any way, and let the
/// engine run after each chunk. Then the engine delivers exactly the frames
/// that were written, in order, has consumed every byte, and waits at the
/// next frame boundary.
pub proof fn lemma_control_stream_reads_back(
    id: u64,
    is_local: bool,
    written: Seq<Written>,
    chunks: Seq<Seq<u8>>,
)
    requires
        !bidi(id),
        all_valid(written),
        control_sequence(frames_of(written)),
        chunks.flatten() == seq![HTTP3_CONTROL_STREAM_TYPE_ID] + bytes_of(written),
    ensures
        StreamView::initial(id, is_local).feed(chunks).frames == frames_of(written),
        StreamView::initial(id, is_local).feed(chunks).stop == Error::BufferTooShort,
        StreamView::initial(id, is_local).feed(chunks).end.state
            == StreamState::FramePayloadLenLen,
        StreamView::initial(id, is_local).feed(chunks).end.ty == Some(StreamType::Control),
        StreamView::initial(id, is_local).feed(chunks).end.buffered() == 0,
        StreamView::initial(id, is_local).feed(chunks).end.stream_offset == 1 + bytes_of(
            written,
        ).len(),
{
    let fresh = StreamView::initial(id, is_local);
    let bytes = seq![HTTP3_CONTROL_STREAM_TYPE_ID] + bytes_of(written);
    lemma_chunking_invariance(fresh, chunks);
    let s0 = fresh.append(bytes);
    lemma_append_wf(fresh, bytes);
    assert(s0.unread() =~= bytes);
    let s1 = StreamView { ty_len: 1, state: StreamState::StreamType, ..s0 };
    assert(s0.step() == Ok::<(StreamView, Option<FrameView>), Error>((s1, None))) by {
        reveal(StreamView::step);
    }
    let s2 = StreamView {
        ty: Some(StreamType::Control),
        state: StreamState::FramePayloadLenLen,
        ..s1.consume(1)
    };
    assert(s1.step() == Ok::<(StreamView, Option<FrameView>), Error>((s2, None))) by {
        reveal(StreamView::step);
        assert(s1.unread().subrange(0, 1)[0] == HTTP3_CONTROL_STREAM_TYPE_ID);
    }
    assert(s2.unread() =~= bytes_of(written));
    lemma_step_progress(s0);
    lemma_step_progress(s1);
    lemma_run_unfolds(s0);
    lemma_run_unfolds(s1);
    lemma_control_sequence_admitted(frames_of(written), false);
    lemma_reads_frames(s2, written);
    assert(s0.run().frames =~= s2.run().frames);
}

/// A request stream is read back as it was written. Let a fresh
/// bidirectional stream receive any number of frames of the types that
/// request streams carry, cut into chunks in any way, and let the engine
/// run after each chunk. Then the engine delivers exactly the frames that
/// were written, in order, has consumed every byte, and waits at the next
/// frame boundary.
pub proof fn lemma_request_stream_reads_back(
    id: u64,
    is_local: bool,
    written: Seq<Written>,
    chunks: Seq<Seq<u8>>,
)
    requires
        bidi(id),
        all_valid(written),
        request_sequence(frames_of(written)),
        chunks.flatten() == bytes_of(written),
    ensures
        StreamView::initial(id, is_local).feed(chunks).frames == frames_of(written),
        StreamView::initial(id, is_local).feed(chunks).stop == Error::BufferTooShort,
        StreamView::initial(id, is_local).feed(chunks).end.state
            == StreamState::FramePayloadLenLen,
        StreamView::initial(id, is_local).feed(chunks).end.ty == Some(StreamType::Request),
        StreamView::initial(id, is_local).feed(chunks).end.buffered() == 0,
        StreamView::initial(id, is_local).feed(chunks).end.stream_offset == bytes_of(
            written,
        ).len(),
{
    let fresh = StreamView::initial(id, is_local);
    lemma_chunking_invariance(fresh, chunks);
    let s0 = fresh.append(bytes_of(written));
    lemma_append_wf(fresh, bytes_of(written));
    assert(s0.unread() =~= bytes_of(written));
    lemma_request_sequence_admitted(frames_of(written), true);
    lemma_reads_frames(s0, written);
}

} // verus!
