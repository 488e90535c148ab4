//! What holds of the engine whatever it is fed.

use vstd::prelude::*;
use crate::error::Error;
use crate::frame::{allowed_on_request, FrameView, SETTINGS_FRAME_TYPE_ID};
use crate::model::{bytewise, delivered, rank, Run, StreamView};
use crate::stream::{StreamState, StreamType};

verus! {

/// A fresh stream is well formed.
pub proof fn lemma_initial_wf(id: u64, is_local: bool)
    ensures
        StreamView::initial(id, is_local).wf(),
{
}

/// Arriving bytes keep a stream well formed and change nothing but the
/// buffer, at its end.
pub proof fn lemma_append_wf(s: StreamView, data: Seq<u8>)
    requires
        s.wf(),
    ensures
        s.append(data).wf(),
        s.evolves_to(s.append(data)),
        s.append(data).unread() == s.unread() + data,
{
    assert(s.buf =~= (s.buf + data).subrange(0, s.buf.len() as int));
    assert(s.append(data).unread() =~= s.unread() + data);
}

/// Every operation that succeeds keeps the stream well formed, so that the
/// read cursor stays within what was received, and takes it to a state
/// that it may evolve to, so that no offset goes back.
pub proof fn lemma_operations_keep_invariant(
    s: StreamView,
    data: Seq<u8>,
    ty_len: u8,
    ty: Option<StreamType>,
    varint_len: nat,
    push_id: nat,
    payload_len: nat,
    frame_type: u8,
)
    requires
        s.wf(),
    ensures
        s.append(data).wf() && s.evolves_to(s.append(data)),
        s.get_u8() matches Ok((next, _)) ==> next.wf() && s.evolves_to(next),
        s.get_varint() matches Ok((next, _)) ==> next.wf() && s.evolves_to(next),
        s.set_stream_type_len(ty_len) matches Ok(next) ==> next.wf() && s.evolves_to(next),
        s.set_stream_type(ty) matches Ok(next) ==> next.wf() && s.evolves_to(next),
        s.set_next_varint_len(varint_len) matches Ok(next) ==> next.wf() && s.evolves_to(next),
        s.set_push_id(push_id) matches Ok(next) ==> next.wf() && s.evolves_to(next),
        s.set_frame_payload_len(payload_len) matches Ok(next) ==> next.wf() && s.evolves_to(next),
        s.set_frame_type(frame_type) matches Ok(next) ==> next.wf() && s.evolves_to(next),
        s.parse_frame() matches Ok((next, _)) ==> next.wf() && s.evolves_to(next),
        s.step() matches Ok((next, _)) ==> next.wf() && s.evolves_to(next),
{
    lemma_append_wf(s, data);
    assert(s.buf.subrange(0, s.buf.len() as int) =~= s.buf);
    if s.step() is Ok {
        lemma_step_progress(s);
    }
}

/// A stream evolves to itself.
pub proof fn lemma_evolves_reflexive(s: StreamView)
    ensures
        s.evolves_to(s),
{
    assert(s.buf.subrange(0, s.buf.len() as int) =~= s.buf);
}

/// Evolution composes: what a stream may evolve to in one stretch and
/// then in another, it may evolve to in both together.
pub proof fn lemma_evolves_transitive(a: StreamView, b: StreamView, c: StreamView)
    requires
        a.evolves_to(b),
        b.evolves_to(c),
    ensures
        a.evolves_to(c),
{
    assert(a.buf =~= c.buf.subrange(0, a.buf.len() as int)) by {
        assert(a.buf =~= b.buf.subrange(0, a.buf.len() as int));
        assert(b.buf =~= c.buf.subrange(0, b.buf.len() as int));
    }
}

/// Along any sequence of states in which each evolves to the next, the
/// first evolves to every later one: the stream offset and the read cursor
/// of a later state are never behind those of an earlier one.
pub proof fn lemma_evolution_chains(states: Seq<StreamView>, i: int, j: int)
    requires
        forall|k: int| 0 <= k < states.len() - 1 ==> (#[trigger] states[k]).evolves_to(states[k + 1]),
        0 <= i <= j < states.len(),
    ensures
        states[i].evolves_to(states[j]),
        states[i].stream_offset <= states[j].stream_offset,
        states[i].buf_read_off <= states[j].buf_read_off,
    decreases j - i,
{
    if i == j {
        lemma_evolves_reflexive(states[i]);
    } else {
        lemma_evolution_chains(states, i, j - 1);
        lemma_evolves_transitive(states[i], states[j - 1], states[j]);
    }
}

/// A tag and the role it announces determine each other.
pub proof fn lemma_tag_roundtrip(ty: StreamType, tag: u8)
    ensures
        ty.tag() == Some(tag) <==> StreamType::from_tag(tag) == Some(ty),
{
}

/// A tag that announces no role sends the stream to `Invalid`, whatever
/// else holds of the stream and whatever is buffered.
pub proof fn lemma_unknown_tag_invalidates(s: StreamView, tag: u8)
    requires
        s.wf(),
        s.state == StreamState::StreamType,
        StreamType::from_tag(tag) is None,
    ensures
        s.set_stream_type(StreamType::from_tag(tag)) is Ok,
        s.set_stream_type(StreamType::from_tag(tag))->Ok_0.state == StreamState::Invalid,
        s.set_stream_type(StreamType::from_tag(tag))->Ok_0.wf(),
{
}

/// A stream of unknown role is lost for good: once `None` has been taken
/// as its role, whatever was buffered then, every setter fails with
/// `InternalError`, and so do the frame parser and the step of the engine.
pub proof fn lemma_unknown_role_is_final(
    s: StreamView,
    ty_len: u8,
    ty: Option<StreamType>,
    varint_len: nat,
    push_id: nat,
    payload_len: nat,
    frame_type: u8,
)
    requires
        s.wf(),
        s.state == StreamState::StreamType,
    ensures
        s.set_stream_type(None) matches Ok(lost) && {
            &&& lost.wf()
            &&& lost.state == StreamState::Invalid
            &&& lost.set_stream_type_len(ty_len) == Err::<StreamView, Error>(Error::InternalError)
            &&& lost.set_stream_type(ty) == Err::<StreamView, Error>(Error::InternalError)
            &&& lost.set_next_varint_len(varint_len) == Err::<StreamView, Error>(
                Error::InternalError,
            )
            &&& lost.set_push_id(push_id) == Err::<StreamView, Error>(Error::InternalError)
            &&& lost.set_frame_payload_len(payload_len) == Err::<StreamView, Error>(
                Error::InternalError,
            )
            &&& lost.set_frame_type(frame_type) == Err::<StreamView, Error>(Error::InternalError)
            &&& lost.parse_frame() == Err::<(StreamView, FrameView), Error>(Error::InternalError)
            &&& lost.step() == Err::<(StreamView, Option<FrameView>), Error>(Error::InternalError)
        },
{
    let lost = s.set_stream_type(None)->Ok_0;
    lemma_terminal_refuses_all(lost, ty_len, ty, varint_len, push_id, payload_len, frame_type);
}

/// In a terminal state every setter fails with `InternalError`, and so do
/// the frame parser and the step of the engine: a stream that is `Invalid`
/// or `Done` stays as it is.
pub proof fn lemma_terminal_refuses_all(
    s: StreamView,
    ty_len: u8,
    ty: Option<StreamType>,
    varint_len: nat,
    push_id: nat,
    payload_len: nat,
    frame_type: u8,
)
    requires
        s.wf(),
        s.state.is_terminal(),
    ensures
        s.set_stream_type_len(ty_len) == Err::<StreamView, Error>(Error::InternalError),
        s.set_stream_type(ty) == Err::<StreamView, Error>(Error::InternalError),
        s.set_next_varint_len(varint_len) == Err::<StreamView, Error>(Error::InternalError),
        s.set_push_id(push_id) == Err::<StreamView, Error>(Error::InternalError),
        s.set_frame_payload_len(payload_len) == Err::<StreamView, Error>(Error::InternalError),
        s.set_frame_type(frame_type) == Err::<StreamView, Error>(Error::InternalError),
        s.parse_frame() == Err::<(StreamView, FrameView), Error>(Error::InternalError),
        s.step() == Err::<(StreamView, Option<FrameView>), Error>(Error::InternalError),
{
    reveal(StreamView::step);
}

/// A payload that is buffered in part is waited for, and taken once the
/// rest has arrived. While fewer bytes are buffered than the frame
/// declared, `parse_frame` fails with `BufferTooShort`. Once enough bytes
/// have arrived it succeeds, moves the read cursor and the stream offset
/// on by exactly the declared length, and delivers the first bytes of what
/// was buffered and what arrived, as many as were declared.
pub proof fn lemma_partial_payload(s: StreamView, more: Seq<u8>)
    requires
        s.wf(),
        s.state == StreamState::FramePayload,
        s.buffered() < s.frame_payload_len,
        s.frame_payload_len <= s.buffered() + more.len(),
    ensures
        s.parse_frame() == Err::<(StreamView, FrameView), Error>(Error::BufferTooShort),
        s.append(more).parse_frame() is Ok,
        s.append(more).parse_frame()->Ok_0.0.buf_read_off == s.buf_read_off
            + s.frame_payload_len,
        s.append(more).parse_frame()->Ok_0.0.stream_offset == s.stream_offset
            + s.frame_payload_len,
        s.append(more).parse_frame()->Ok_0.0.state == StreamState::FramePayloadLenLen,
        s.append(more).parse_frame()->Ok_0.1.frame_type == s.frame_type->0,
        s.append(more).parse_frame()->Ok_0.1.payload == (s.unread() + more).subrange(
            0,
            s.frame_payload_len as int,
        ),
{
    lemma_append_wf(s, more);
}

/// A step keeps the stream well formed, takes it to a state that it may
/// evolve to, and makes progress: it consumes a byte or moves down in rank.
pub proof fn lemma_step_progress(s: StreamView)
    requires
        s.wf(),
        s.step() is Ok,
    ensures
        s.step()->Ok_0.0.wf(),
        s.evolves_to(s.step()->Ok_0.0),
        s.step()->Ok_0.0.buf == s.buf,
        s.step()->Ok_0.0.buffered() < s.buffered() || (s.step()->Ok_0.0.buffered() == s.buffered()
            && rank(s.step()->Ok_0.0.state) < rank(s.state)),
{
    reveal(StreamView::step);
    assert(s.buf.subrange(0, s.buf.len() as int) =~= s.buf);
}

/// A step that succeeds does not depend on what arrives later: with more
/// bytes buffered behind, the same step is made and the same frame
/// delivered.
pub proof fn lemma_step_ignores_later_bytes(s: StreamView, data: Seq<u8>)
    requires
        s.wf(),
        s.step() is Ok,
    ensures
        s.append(data).step() == Ok::<(StreamView, Option<FrameView>), Error>(
            (s.step()->Ok_0.0.append(data), s.step()->Ok_0.1),
        ),
{
    reveal(StreamView::step);
    let t = s.append(data);
    lemma_append_wf(s, data);
    match s.state {
        StreamState::StreamType => {
            assert(t.unread().subrange(0, 1) =~= s.unread().subrange(0, 1));
        },
        StreamState::FramePayloadLenLen | StreamState::PushIdLen => {
            assert(t.unread().subrange(0, 1) =~= s.unread().subrange(0, 1));
        },
        StreamState::FramePayloadLen | StreamState::PushId => {
            assert(t.unread().subrange(0, s.next_varint_len as int) =~= s.unread().subrange(
                0,
                s.next_varint_len as int,
            ));
        },
        StreamState::FrameType => {
            assert(t.unread().subrange(0, 1) =~= s.unread().subrange(0, 1));
        },
        StreamState::FramePayload => {
            assert(t.unread().subrange(0, s.frame_payload_len as int) =~= s.unread().subrange(
                0,
                s.frame_payload_len as int,
            ));
        },
        _ => {},
    }
}

/// A step that fails for another reason than missing bytes fails in the
/// same way however many bytes arrive.
pub proof fn lemma_failure_is_final(s: StreamView, data: Seq<u8>)
    requires
        s.wf(),
        s.step() is Err,
        s.step()->Err_0 != Error::BufferTooShort,
    ensures
        s.append(data).step() == s.step(),
{
    reveal(StreamView::step);
    let t = s.append(data);
    lemma_append_wf(s, data);
    match s.state {
        StreamState::FrameType => {
            assert(t.unread().subrange(0, 1) =~= s.unread().subrange(0, 1));
        },
        StreamState::StreamType => {
            assert(t.unread().subrange(0, 1) =~= s.unread().subrange(0, 1));
        },
        StreamState::FramePayloadLenLen | StreamState::PushIdLen => {
            assert(t.unread().subrange(0, 1) =~= s.unread().subrange(0, 1));
        },
        _ => {},
    }
}

/// A run is its first step and the run that follows.
pub proof fn lemma_run_unfolds(s: StreamView)
    requires
        s.wf(),
    ensures
        s.run() == match s.step() {
            Err(e) => Run { end: s, frames: Seq::empty(), stop: e },
            Ok((next, frame)) => next.run().after(delivered(frame)),
        },
{
    reveal(StreamView::run);
    reveal(StreamView::step);
}

/// A run ends in a well-formed state that the stream may evolve to and in
/// which the next step fails with the failure that the run reports.
pub proof fn lemma_run_end(s: StreamView)
    requires
        s.wf(),
    ensures
        s.run().end.wf(),
        s.evolves_to(s.run().end),
        s.run().end.buf == s.buf,
        s.run().end.step() == Err::<(StreamView, Option<FrameView>), Error>(
            s.run().stop,
        ),
    decreases s.buffered(), rank(s.state),
{
    lemma_run_unfolds(s);
    match s.step() {
        Err(e) => {
            lemma_evolves_reflexive(s);
        },
        Ok((next, frame)) => {
            lemma_step_progress(s);
            lemma_run_end(next);
            lemma_evolves_transitive(s, next, next.run().end);
        },
    }
}

/// The frames that a run delivers obey the stream's role, whatever bytes
/// the peer has sent.
///
/// Frames are delivered only on control and request streams. On a request
/// stream every frame delivered is of one of the four types that request
/// streams may carry. On a control stream SETTINGS is first and only: no
/// frame after the first of a run is SETTINGS, the first frame delivered
/// on a stream that has not had its SETTINGS yet is SETTINGS, and the first
/// frame delivered on a stream that has had it, and awaits no payload, is
/// not. A stream that awaits a payload delivers first the frame whose type
/// it has taken.
pub proof fn lemma_run_respects_role(s: StreamView)
    requires
        s.wf(),
    ensures
        s.run().frames.len() > 0 ==> s.run().end.ty == Some(StreamType::Control) || s.run().end.ty
            == Some(StreamType::Request),
        s.run().end.ty == Some(StreamType::Request) ==> forall|i: int|
            0 <= i < s.run().frames.len() ==> allowed_on_request(
                (#[trigger] s.run().frames[i]).frame_type,
            ),
        s.run().end.ty == Some(StreamType::Control) ==> forall|i: int|
            1 <= i < s.run().frames.len() ==> (#[trigger] s.run().frames[i]).frame_type
                != SETTINGS_FRAME_TYPE_ID,
        s.run().end.ty == Some(StreamType::Control) && s.run().frames.len() > 0 && !s.initialised
            ==> s.run().frames[0].frame_type == SETTINGS_FRAME_TYPE_ID,
        s.run().end.ty == Some(StreamType::Control) && s.run().frames.len() > 0 && s.initialised
            && s.state != StreamState::FramePayload ==> s.run().frames[0].frame_type
            != SETTINGS_FRAME_TYPE_ID,
        s.run().frames.len() > 0 && s.state == StreamState::FramePayload ==> Some(
            s.run().frames[0].frame_type,
        ) == s.frame_type,
    decreases s.buffered(), rank(s.state),
{
    reveal(StreamView::step);
    lemma_run_unfolds(s);
    match s.step() {
        Err(e) => {},
        Ok((next, frame)) => {
            lemma_step_progress(s);
            lemma_run_respects_role(next);
            lemma_run_end(next);
            let rest = next.run().frames;
            let all = s.run().frames;
            assert(all == delivered(frame) + rest);
            match frame {
                Some(f) => {
                    assert(all[0] == f);
                    assert(forall|i: int| 1 <= i < all.len() ==> all[i] == rest[i - 1]);
                },
                None => {
                    assert(all =~= rest);
                },
            }
        },
    }
}

/// What a run makes of bytes that arrive after it: if it stopped for want
/// of bytes, it goes on from where it stopped; if it stopped for any other
/// reason, it stays stopped and only buffers.
pub proof fn lemma_run_resumes(s: StreamView, data: Seq<u8>)
    requires
        s.wf(),
    ensures
        s.append(data).run() == if s.run().stop == Error::BufferTooShort {
            s.run().end.append(data).run().after(s.run().frames)
        } else {
            Run { end: s.run().end.append(data), frames: s.run().frames, stop: s.run().stop }
        },
    decreases s.buffered(), rank(s.state),
{
    let t = s.append(data);
    lemma_append_wf(s, data);
    lemma_run_unfolds(s);
    lemma_run_unfolds(t);
    match s.step() {
        Err(e) => {
            if e == Error::BufferTooShort {
                assert(t.run().after(Seq::empty()).frames =~= t.run().frames);
            } else {
                lemma_failure_is_final(s, data);
            }
        },
        Ok((next, frame)) => {
            lemma_step_progress(s);
            lemma_step_ignores_later_bytes(s, data);
            lemma_run_resumes(next, data);
            lemma_append_wf(next, data);
            assert(t.run() == next.append(data).run().after(delivered(frame)));
            if next.run().stop == Error::BufferTooShort {
                let rest = next.run().end.append(data).run();
                assert(delivered(frame) + (next.run().frames + rest.frames) =~= (delivered(frame)
                    + next.run().frames) + rest.frames);
            }
        },
    }
}

/// Once a run has stopped for another reason than missing bytes, running
/// again delivers nothing, whatever has arrived since: bytes that arrive
/// after such a failure are buffered and never read. So a caller that
/// runs the engine again only after `BufferTooShort` misses no frame.
pub proof fn lemma_failed_run_stays_failed(s: StreamView, data: Seq<u8>)
    requires
        s.wf(),
        s.run().stop != Error::BufferTooShort,
    ensures
        s.run().end.append(data).run() == (Run {
            end: s.run().end.append(data),
            frames: Seq::empty(),
            stop: s.run().stop,
        }),
{
    lemma_run_end(s);
    lemma_failure_is_final(s.run().end, data);
    lemma_append_wf(s.run().end, data);
    lemma_run_unfolds(s.run().end.append(data));
}

/// Chunking invariance. However a byte sequence is cut into chunks,
/// feeding the chunks one after another and running the engine after each
/// delivers the same frames in the same order, ends in the same state and
/// stops for the same reason as buffering the whole sequence at once and
/// running the engine once.
pub proof fn lemma_chunking_invariance(s: StreamView, chunks: Seq<Seq<u8>>)
    requires
        s.wf(),
    ensures
        s.feed(chunks) == s.append(chunks.flatten()).run(),
    decreases chunks.len(),
{
    chunks.lemma_flatten_and_flatten_alt_are_equivalent();
    if chunks.len() == 0 {
        assert(s.append(Seq::empty()).buf =~= s.buf);
        assert(s.append(Seq::empty()) == s);
    } else {
        let init = chunks.drop_last();
        let last = chunks.last();
        init.lemma_flatten_and_flatten_alt_are_equivalent();
        lemma_chunking_invariance(s, init);
        let mid = s.append(init.flatten());
        lemma_append_wf(s, init.flatten());
        assert(mid.append(last).buf =~= s.append(chunks.flatten()).buf);
        assert(mid.append(last) == s.append(chunks.flatten()));
        lemma_run_resumes(mid, last);
        if mid.run().stop != Error::BufferTooShort {
            lemma_failed_run_stays_failed(mid, last);
            assert(mid.run().frames + Seq::empty() =~= mid.run().frames);
        }
    }
}

/// The one-byte chunks of a sequence, put together again, give the
/// sequence.
pub proof fn lemma_bytewise_flatten(bytes: Seq<u8>)
    ensures
        bytewise(bytes).flatten() == bytes,
    decreases bytes.len(),
{
    let chunks = bytewise(bytes);
    chunks.lemma_flatten_and_flatten_alt_are_equivalent();
    if bytes.len() > 0 {
        let init = bytes.drop_last();
        assert(chunks.drop_last() =~= bytewise(init));
        lemma_bytewise_flatten(init);
        bytewise(init).lemma_flatten_and_flatten_alt_are_equivalent();
        assert(chunks.flatten_alt() =~= bytes);
    } else {
        assert(chunks.flatten_alt() =~= bytes);
    }
}

/// Chunking invariance for the finest cut: feeding the bytes one at a time
/// gives what feeding them all at once gives.
pub proof fn lemma_bytewise_feeding(s: StreamView, bytes: Seq<u8>)
    requires
        s.wf(),
    ensures
        s.feed(bytewise(bytes)) == s.append(bytes).run(),
{
    lemma_bytewise_flatten(bytes);
    lemma_chunking_invariance(s, bytewise(bytes));
}

} // verus!
