//! Per-stream framing engine for HTTP/3 over QUIC.
//!
//! A [`stream::Stream`] buffers the bytes of one QUIC stream as they arrive
//! and walks them through a small state machine: the stream-type prefix
//! first (on unidirectional streams), then frame after frame, each made of
//! a length, a type and a payload. The engine never blocks: when a field is
//! not yet fully buffered it reports [`error::Error::BufferTooShort`] and
//! keeps its state, so the same call can be repeated once more bytes are in.
//!
//! The engine delimits frames and enforces which frames a stream may
//! carry. It does not interpret payloads, and it is no transport: bytes
//! are handed to it in stream order.
//!
//! - [`stream`]: the engine and its operations, one header field at a time.
//! - [`driver`]: the operations in the order that the state asks for.
//! - [`varint`]: variable-length integers.
//! - [`frame`]: frames and frame types.
//! - [`error`]: failures.
//! - [`model`]: the engine as a state machine, in which the contracts of
//!   the operations are written.
//! - [`laws`]: what holds of every stream, among it that the frames
//!   delivered do not depend on how the bytes were cut into chunks.
//! - [`wire`]: the wire format, and that what is written is read back.

pub mod driver;
pub mod error;
pub mod frame;
pub mod laws;
pub mod model;
pub mod stream;
pub mod varint;
pub mod wire;
