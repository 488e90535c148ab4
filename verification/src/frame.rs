//! Frames as the stream engine sees them: a type tag and a payload.
//!
//! The engine delimits frames; it does not interpret their payloads.

use vstd::prelude::*;

verus! {

pub const DATA_FRAME_TYPE_ID: u8 = 0x0;

pub const HEADERS_FRAME_TYPE_ID: u8 = 0x1;

pub const PRIORITY_FRAME_TYPE_ID: u8 = 0x2;

pub const SETTINGS_FRAME_TYPE_ID: u8 = 0x4;

pub const PUSH_PROMISE_FRAME_TYPE_ID: u8 = 0x5;

/// The frame types that a request stream may carry.
pub open spec fn allowed_on_request(frame_type: u8) -> bool {
    ||| frame_type == HEADERS_FRAME_TYPE_ID
    ||| frame_type == DATA_FRAME_TYPE_ID
    ||| frame_type == PRIORITY_FRAME_TYPE_ID
    ||| frame_type == PUSH_PROMISE_FRAME_TYPE_ID
}

/// One frame cut out of a stream: its type tag and its payload, byte for
/// byte as it was received and exactly as long as the frame declared. What
/// the payload means is for the caller to decode.
#[derive(Clone, Debug, PartialEq, Eq)]
pub struct Frame {
    pub frame_type: u8,
    pub payload: Vec<u8>,
}

/// A frame in contracts.
pub struct FrameView {
    pub frame_type: u8,
    pub payload: Seq<u8>,
}

impl View for Frame {
    type V = FrameView;

    open spec fn view(&self) -> FrameView {
        FrameView { frame_type: self.frame_type, payload: self.payload@ }
    }
}

/// The frames of `frames`, in order, as contracts see them.
pub open spec fn frame_views(frames: Seq<Frame>) -> Seq<FrameView> {
    frames.map_values(|f: Frame| f@)
}

} // verus!
