//! A bridge to the debug-visualisation geometry of a physics engine.
//!
//! The engine keeps points, lines and triangles in buffers of its own and
//! hands out references to them. This crate holds the geometry records, the
//! copy that turns an engine array into records, and the two ways of holding
//! a buffer: a handle that owns it and a view that only reads it.
//!
//! The engine in this crate keeps its buffers in ordinary memory. An
//! embedding that talks to a native engine uses the records, the layout
//! check and the copies on the arrays that the native engine hands over,
//! and lets a handle say whether a reference may still be used.

pub mod borrowed;
pub mod engine;
pub mod error;
pub mod laws;
pub mod owned;
pub mod records;
pub mod words;

pub use borrowed::RenderBuffer;
pub use engine::{refuse_null, BufferContents, Engine};
pub use error::BufferError;
pub use owned::RenderBufferMut;
pub use records::{
    check_layout, DebugLine, DebugPoint, DebugTriangle, LINE_SIZE, LINE_WORDS, POINT_SIZE,
    POINT_WORDS, TRIANGLE_SIZE, TRIANGLE_WORDS,
};
pub use words::{
    array_len, copy_lines, copy_points, copy_triangles, write_line, write_point, write_triangle,
};
