use h3_stream::error::Error;
use h3_stream::frame::{
    Frame, DATA_FRAME_TYPE_ID, HEADERS_FRAME_TYPE_ID, SETTINGS_FRAME_TYPE_ID,
};
use h3_stream::stream::{Stream, StreamState, StreamType};

const GOAWAY: u8 = 0x7;

/// Type prefix, a SETTINGS frame of four payload bytes, a GOAWAY frame of
/// one payload byte.
const CONTROL: [u8; 10] = [0x43, 0x04, 0x04, 0xde, 0xad, 0xbe, 0xef, 0x01, 0x07, 0x2a];

fn feed(s: &mut Stream, bytes: &[u8]) {
    let mut d = bytes.to_vec();
    assert_eq!(s.add_data(&mut d), Ok(()));
}

fn at_once(id: u64, bytes: &[u8]) -> (Stream, Vec<Frame>, Error) {
    let mut s = Stream::new(id, false).unwrap();
    feed(&mut s, bytes);
    let (frames, stop) = s.read_frames();
    (s, frames, stop)
}

fn in_chunks(id: u64, bytes: &[u8], size: usize) -> (Stream, Vec<Frame>, Error) {
    let mut s = Stream::new(id, false).unwrap();
    let mut frames = Vec::new();
    let (mut got, mut stop) = s.read_frames();
    frames.append(&mut got);
    for chunk in bytes.chunks(size) {
        if stop != Error::BufferTooShort {
            break;
        }
        feed(&mut s, chunk);
        let (mut got, e) = s.read_frames();
        frames.append(&mut got);
        stop = e;
    }
    (s, frames, stop)
}

fn same_end(a: &mut Stream, b: &mut Stream) {
    assert_eq!(a.get_stream_state(), b.get_stream_state());
    assert_eq!(a.get_stream_type(), b.get_stream_type());
    assert_eq!(a.is_initialised(), b.is_initialised());
    assert_eq!(a.stream_offset(), b.stream_offset());
    assert_eq!(a.buf_read_off(), b.buf_read_off());
    assert_eq!(a._get_frame_payload_len(), b._get_frame_payload_len());
    assert_eq!(a.push_id(), b.push_id());
}

#[test]
fn control_stream_read_at_once() {
    let (mut s, frames, stop) = at_once(3, &CONTROL);
    assert_eq!(
        frames,
        vec![
            Frame { frame_type: SETTINGS_FRAME_TYPE_ID, payload: vec![0xde, 0xad, 0xbe, 0xef] },
            Frame { frame_type: GOAWAY, payload: vec![0x2a] },
        ]
    );
    assert_eq!(stop, Error::BufferTooShort);
    assert_eq!(*s.get_stream_state(), StreamState::FramePayloadLenLen);
    assert_eq!(*s.get_stream_type(), Some(StreamType::Control));
    assert!(s.is_initialised());
    assert_eq!(s.stream_offset(), 10);
    assert_eq!(s.buf_read_off(), 10);
    assert_eq!(s.buf_end_pos(), 10);
}

#[test]
fn control_stream_read_one_byte_at_a_time() {
    let (mut whole, frames_whole, stop_whole) = at_once(3, &CONTROL);
    let (mut bytewise, frames_bytewise, stop_bytewise) = in_chunks(3, &CONTROL, 1);
    assert_eq!(frames_bytewise, frames_whole);
    assert_eq!(frames_bytewise.len(), 2);
    assert_eq!(stop_bytewise, stop_whole);
    same_end(&mut whole, &mut bytewise);
    assert_eq!(bytewise.buf_end_pos(), whole.buf_end_pos());
}

#[test]
fn control_stream_read_in_every_chunk_size() {
    let (mut whole, frames_whole, stop_whole) = at_once(3, &CONTROL);
    for size in 1..=CONTROL.len() {
        let (mut s, frames, stop) = in_chunks(3, &CONTROL, size);
        assert_eq!(frames, frames_whole);
        assert_eq!(stop, stop_whole);
        same_end(&mut whole, &mut s);
    }
}

#[test]
fn control_stream_with_wide_lengths_chunked() {
    let mut bytes = vec![0x43, 0x40, 0x03, 0x04, 1, 2, 3];
    bytes.extend_from_slice(&[0x80, 0x00, 0x00, 0x02, 0x07, 8, 9]);
    bytes.extend_from_slice(&[0xc0, 0, 0, 0, 0, 0, 0, 0x01, 0x03, 7]);
    let (mut whole, frames_whole, stop_whole) = at_once(7, &bytes);
    assert_eq!(
        frames_whole,
        vec![
            Frame { frame_type: SETTINGS_FRAME_TYPE_ID, payload: vec![1, 2, 3] },
            Frame { frame_type: GOAWAY, payload: vec![8, 9] },
            Frame { frame_type: 0x03, payload: vec![7] },
        ]
    );
    assert_eq!(stop_whole, Error::BufferTooShort);
    assert_eq!(whole.stream_offset(), bytes.len() as u64);
    for size in 1..=bytes.len() {
        let (mut s, frames, stop) = in_chunks(7, &bytes, size);
        assert_eq!(frames, frames_whole);
        assert_eq!(stop, stop_whole);
        same_end(&mut whole, &mut s);
    }
}

#[test]
fn chunking_does_not_change_a_failure() {
    let bytes = [0x43, 0x01, 0x07, 0x00, 0x00, 0x04];
    let (mut whole, frames_whole, stop_whole) = at_once(3, &bytes);
    assert!(frames_whole.is_empty());
    assert_eq!(stop_whole, Error::MissingSettings);
    assert_eq!(*whole.get_stream_state(), StreamState::FrameType);
    assert_eq!(whole.stream_offset(), 2);
    for size in 1..=bytes.len() {
        let (mut s, frames, stop) = in_chunks(3, &bytes, size);
        assert_eq!(frames, frames_whole);
        assert_eq!(stop, stop_whole);
        same_end(&mut whole, &mut s);
    }
}

#[test]
fn a_failed_run_stays_failed() {
    let mut s = Stream::new(3, false).unwrap();
    feed(&mut s, &[0x43, 0x00, 0x04, 0x00, 0x04]);
    let (frames, stop) = s.read_frames();
    assert_eq!(frames, vec![Frame { frame_type: SETTINGS_FRAME_TYPE_ID, payload: vec![] }]);
    assert_eq!(stop, Error::UnexpectedFrame);
    assert_eq!(*s.get_stream_state(), StreamState::FrameType);
    let off = s.stream_offset();
    feed(&mut s, &[0x00, 0x07]);
    let (frames, stop) = s.read_frames();
    assert!(frames.is_empty());
    assert_eq!(stop, Error::UnexpectedFrame);
    assert_eq!(s.stream_offset(), off);
    assert_eq!(*s.get_stream_state(), StreamState::FrameType);
}

#[test]
fn advance_walks_a_control_stream_step_by_step() {
    let mut s = Stream::new(3, false).unwrap();
    feed(&mut s, &CONTROL);
    assert_eq!(s.advance(), Ok(None));
    assert_eq!(*s.get_stream_state(), StreamState::StreamType);
    assert_eq!(s._type_len(), 1);
    assert_eq!(s.advance(), Ok(None));
    assert_eq!(*s.get_stream_state(), StreamState::FramePayloadLenLen);
    assert_eq!(s.stream_offset(), 1);
    assert_eq!(s.advance(), Ok(None));
    assert_eq!(*s.get_stream_state(), StreamState::FramePayloadLen);
    assert_eq!(s.stream_offset(), 1);
    assert_eq!(s.advance(), Ok(None));
    assert_eq!(*s.get_stream_state(), StreamState::FrameTypeLen);
    assert_eq!(s._get_frame_payload_len(), 4);
    assert_eq!(s.stream_offset(), 2);
    assert_eq!(s.advance(), Ok(None));
    assert_eq!(*s.get_stream_state(), StreamState::FrameType);
    assert_eq!(s.advance(), Ok(None));
    assert_eq!(*s.get_stream_state(), StreamState::FramePayload);
    assert_eq!(s._get_frame_type(), SETTINGS_FRAME_TYPE_ID);
    assert_eq!(s.stream_offset(), 3);
    assert_eq!(
        s.advance(),
        Ok(Some(Frame { frame_type: SETTINGS_FRAME_TYPE_ID, payload: vec![0xde, 0xad, 0xbe, 0xef] }))
    );
    assert_eq!(*s.get_stream_state(), StreamState::FramePayloadLenLen);
    assert_eq!(s.stream_offset(), 7);
}

#[test]
fn advance_that_fails_changes_nothing() {
    let mut s = Stream::new(3, false).unwrap();
    assert_eq!(s.advance(), Ok(None));
    assert_eq!(s.advance(), Err(Error::BufferTooShort));
    assert_eq!(*s.get_stream_state(), StreamState::StreamType);
    feed(&mut s, &[0x43, 0x40]);
    assert_eq!(s.advance(), Ok(None));
    assert_eq!(s.advance(), Ok(None));
    assert_eq!(*s.get_stream_state(), StreamState::FramePayloadLen);
    assert_eq!(s.advance(), Err(Error::BufferTooShort));
    assert_eq!(*s.get_stream_state(), StreamState::FramePayloadLen);
    assert_eq!(s.stream_offset(), 1);
    feed(&mut s, &[0x01, 0x07]);
    assert_eq!(s.advance(), Ok(None));
    assert_eq!(s.advance(), Ok(None));
    assert_eq!(*s.get_stream_state(), StreamState::FrameType);
    assert_eq!(s.stream_offset(), 3);
    assert_eq!(s.advance(), Err(Error::MissingSettings));
    assert_eq!(*s.get_stream_state(), StreamState::FrameType);
    assert_eq!(s.stream_offset(), 3);
    assert_eq!(s.buf_read_off(), 3);
}

#[test]
fn request_stream_frames() {
    let mut s = Stream::new(0, false).unwrap();
    feed(&mut s, &[0x02, HEADERS_FRAME_TYPE_ID, 0x0a, 0x0b, 0x03, DATA_FRAME_TYPE_ID, 1, 2]);
    let (frames, stop) = s.read_frames();
    assert_eq!(frames, vec![Frame { frame_type: HEADERS_FRAME_TYPE_ID, payload: vec![0x0a, 0x0b] }]);
    assert_eq!(stop, Error::BufferTooShort);
    assert_eq!(*s.get_stream_state(), StreamState::FramePayload);
    assert_eq!(s.stream_offset(), 6);
    feed(&mut s, &[3]);
    let (frames, stop) = s.read_frames();
    assert_eq!(frames, vec![Frame { frame_type: DATA_FRAME_TYPE_ID, payload: vec![1, 2, 3] }]);
    assert_eq!(stop, Error::BufferTooShort);
    assert_eq!(s.stream_offset(), 9);
}

#[test]
fn request_stream_refuses_settings() {
    let mut s = Stream::new(0, false).unwrap();
    feed(&mut s, &[0x00, SETTINGS_FRAME_TYPE_ID]);
    let (frames, stop) = s.read_frames();
    assert!(frames.is_empty());
    assert_eq!(stop, Error::UnexpectedFrame);
    assert_eq!(*s.get_stream_state(), StreamState::FrameType);
    assert_eq!(s.stream_offset(), 1);
}

#[test]
fn unknown_stream_type_stops_the_engine() {
    let (mut s, frames, stop) = at_once(3, &[0xff, 0x00, 0x04]);
    assert!(frames.is_empty());
    assert_eq!(stop, Error::InternalError);
    assert_eq!(*s.get_stream_state(), StreamState::Invalid);
    assert_eq!(*s.get_stream_type(), None);
    assert_eq!(s.stream_offset(), 1);
}

#[test]
fn qpack_stream_is_classified_and_left_alone() {
    let (mut s, frames, stop) = at_once(3, &[0x48, 0x01, 0x02]);
    assert!(frames.is_empty());
    assert_eq!(stop, Error::InternalError);
    assert_eq!(*s.get_stream_state(), StreamState::QpackInstruction);
    assert_eq!(*s.get_stream_type(), Some(StreamType::QpackEncoder));
    assert!(s.is_initialised());
    assert_eq!(s.stream_offset(), 1);
    assert_eq!(s.buf_bytes(2).unwrap(), &[0x01, 0x02]);
}

#[test]
fn push_stream_reads_its_id() {
    let (mut s, frames, stop) = at_once(3, &[0x50, 0x7b, 0xbd]);
    assert!(frames.is_empty());
    assert_eq!(stop, Error::BufferTooShort);
    assert_eq!(*s.get_stream_type(), Some(StreamType::Push));
    assert_eq!(s.push_id(), Some(15293));
    assert!(s.is_initialised());
    assert_eq!(*s.get_stream_state(), StreamState::FramePayloadLenLen);
    assert_eq!(s.stream_offset(), 3);
}

#[test]
fn push_stream_in_chunks() {
    let bytes = [0x50, 0x7b, 0xbd, 0x02, 0x00, 0x01, 0x01];
    let (mut whole, frames_whole, stop_whole) = at_once(3, &bytes);
    assert!(frames_whole.is_empty());
    assert_eq!(stop_whole, Error::BufferTooShort);
    assert_eq!(whole.stream_offset(), 7);
    for size in 1..=bytes.len() {
        let (mut s, frames, stop) = in_chunks(3, &bytes, size);
        assert_eq!(frames, frames_whole);
        assert_eq!(stop, stop_whole);
        same_end(&mut whole, &mut s);
    }
}

#[test]
fn read_frames_on_nothing_waits() {
    let mut s = Stream::new(0, true).unwrap();
    let (frames, stop) = s.read_frames();
    assert!(frames.is_empty());
    assert_eq!(stop, Error::BufferTooShort);
    assert_eq!(*s.get_stream_state(), StreamState::FramePayloadLenLen);
    let mut u = Stream::new(2, true).unwrap();
    let (frames, stop) = u.read_frames();
    assert!(frames.is_empty());
    assert_eq!(stop, Error::BufferTooShort);
    assert_eq!(*u.get_stream_state(), StreamState::StreamType);
}

/// A small deterministic generator of test bytes.
fn next_byte(seed: &mut u64) -> u8 {
    *seed = seed.wrapping_mul(6364136223846793005).wrapping_add(1442695040888963407);
    (*seed >> 56) as u8
}

fn arbitrary_stream(seed: &mut u64, tag: Option<u8>) -> Vec<u8> {
    let mut bytes = Vec::new();
    if let Some(t) = tag {
        bytes.push(t);
    }
    let len = (next_byte(seed) % 40) as usize;
    for _ in 0..len {
        // Small values keep lengths short, so that whole frames occur.
        let b = next_byte(seed);
        bytes.push(if b % 4 == 0 { b } else { b % 8 });
    }
    bytes
}

#[test]
fn chunking_invariance_on_arbitrary_bytes() {
    let mut seed = 0x1234_5678_9abc_def0u64;
    let tags = [Some(0x43), Some(0x50), Some(0x48), Some(0x68), Some(0xff), None];
    let mut delivered = 0;
    for round in 0..240 {
        let tag = tags[round % tags.len()];
        let id = if tag.is_some() { 3 } else { 0 };
        let bytes = arbitrary_stream(&mut seed, tag);
        let (mut whole, frames_whole, stop_whole) = at_once(id, &bytes);
        delivered += frames_whole.len();
        for size in 1..=bytes.len().max(1) {
            let (mut s, frames, stop) = in_chunks(id, &bytes, size);
            assert_eq!(frames, frames_whole);
            assert_eq!(stop, stop_whole);
            same_end(&mut whole, &mut s);
        }
    }
    assert!(delivered > 0);
}

#[test]
fn advance_waits_for_the_whole_type_field() {
    let mut s = Stream::new(3, false).unwrap();
    assert_eq!(s.set_stream_type_len(2), Ok(()));
    assert_eq!(s.advance(), Err(Error::BufferTooShort));
    feed(&mut s, &[0x43]);
    assert_eq!(s.advance(), Err(Error::BufferTooShort));
    assert_eq!(*s.get_stream_state(), StreamState::StreamType);
    assert_eq!(s.stream_offset(), 0);
    feed(&mut s, &[0x00]);
    assert_eq!(s.advance(), Ok(None));
    assert_eq!(*s.get_stream_type(), Some(StreamType::Control));
    assert_eq!(*s.get_stream_state(), StreamState::FramePayloadLenLen);
    assert_eq!(s.stream_offset(), 2);
    assert_eq!(s.buf_read_off(), 2);
}

#[test]
fn advance_with_a_type_field_of_width_zero_still_needs_the_tag() {
    let mut s = Stream::new(3, false).unwrap();
    assert_eq!(s.set_stream_type_len(0), Ok(()));
    assert_eq!(s.advance(), Err(Error::BufferTooShort));
    feed(&mut s, &[0x48]);
    assert_eq!(s.advance(), Ok(None));
    assert_eq!(*s.get_stream_type(), Some(StreamType::QpackEncoder));
    assert_eq!(s.stream_offset(), 0);
    assert_eq!(s.buffered(), 1);
}

#[test]
fn chunking_invariance_with_a_type_field_set_by_hand() {
    let bytes = [0x43, 0x00, 0x00, 0x01, 0x04, 0xaa, 0x00, 0x07];
    let run = |size: usize| {
        let mut s = Stream::new(3, false).unwrap();
        assert_eq!(s.set_stream_type_len(3), Ok(()));
        let mut frames = Vec::new();
        let mut stop = Error::BufferTooShort;
        for chunk in bytes.chunks(size) {
            feed(&mut s, chunk);
            let (mut got, e) = s.read_frames();
            frames.append(&mut got);
            stop = e;
        }
        (s, frames, stop)
    };
    let (mut whole, frames_whole, stop_whole) = run(bytes.len());
    assert_eq!(
        frames_whole,
        vec![
            Frame { frame_type: SETTINGS_FRAME_TYPE_ID, payload: vec![0xaa] },
            Frame { frame_type: GOAWAY, payload: vec![] },
        ]
    );
    assert_eq!(stop_whole, Error::BufferTooShort);
    assert_eq!(whole.stream_offset(), 8);
    for size in 1..bytes.len() {
        let (mut s, frames, stop) = run(size);
        assert_eq!(frames, frames_whole);
        assert_eq!(stop, stop_whole);
        same_end(&mut whole, &mut s);
    }
}
