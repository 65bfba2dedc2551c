//! The geometry records and their layout.
//!
//! A record is a run of 32-bit words: per vertex three coordinates followed
//! by one packed colour. Coordinates are IEEE-754 single-precision numbers,
//! kept here as their bit patterns, so that a record is the engine's record
//! word for word.

use crate::error::BufferError;
use vstd::prelude::*;

verus! {

/// Words in a point record.
pub const POINT_WORDS: usize = 4;

/// Words in a line record.
pub const LINE_WORDS: usize = 8;

/// Words in a triangle record.
pub const TRIANGLE_WORDS: usize = 12;

/// Bytes in a point record, in this crate and in the engine.
pub const POINT_SIZE: usize = 16;

/// Bytes in a line record, in this crate and in the engine.
pub const LINE_SIZE: usize = 32;

/// Bytes in a triangle record, in this crate and in the engine.
pub const TRIANGLE_SIZE: usize = 48;

/// A coloured point.
#[derive(Clone, Copy, Debug, PartialEq, Eq)]
pub struct DebugPoint {
    pub pos: [u32; 3],
    pub color: u32,
}

/// A line segment with a colour at each end.
#[derive(Clone, Copy, Debug, PartialEq, Eq)]
pub struct DebugLine {
    pub pos0: [u32; 3],
    pub color0: u32,
    pub pos1: [u32; 3],
    pub color1: u32,
}

/// A triangle with a colour at each corner.
#[derive(Clone, Copy, Debug, PartialEq, Eq)]
pub struct DebugTriangle {
    pub pos0: [u32; 3],
    pub color0: u32,
    pub pos1: [u32; 3],
    pub color1: u32,
    pub pos2: [u32; 3],
    pub color2: u32,
}

impl DebugPoint {
    /// The point at the origin with colour zero.
    pub open spec fn zero() -> DebugPoint {
        DebugPoint { pos: [0u32, 0u32, 0u32], color: 0 }
    }
}

impl DebugLine {
    /// The line from the origin to the origin with both colours zero.
    pub open spec fn zero() -> DebugLine {
        DebugLine { pos0: [0u32, 0u32, 0u32], color0: 0, pos1: [0u32, 0u32, 0u32], color1: 0 }
    }
}

impl DebugTriangle {
    /// The triangle with all corners at the origin and all colours zero.
    pub open spec fn zero() -> DebugTriangle {
        DebugTriangle {
            pos0: [0u32, 0u32, 0u32],
            color0: 0,
            pos1: [0u32, 0u32, 0u32],
            color1: 0,
            pos2: [0u32, 0u32, 0u32],
            color2: 0,
        }
    }
}

impl Default for DebugPoint {
    fn default() -> (point: DebugPoint)
        ensures
            point == DebugPoint::zero(),
    {
        DebugPoint { pos: [0, 0, 0], color: 0 }
    }
}

impl Default for DebugLine {
    fn default() -> (line: DebugLine)
        ensures
            line == DebugLine::zero(),
    {
        DebugLine { pos0: [0, 0, 0], color0: 0, pos1: [0, 0, 0], color1: 0 }
    }
}

impl Default for DebugTriangle {
    fn default() -> (triangle: DebugTriangle)
        ensures
            triangle == DebugTriangle::zero(),
    {
        DebugTriangle {
            pos0: [0, 0, 0],
            color0: 0,
            pos1: [0, 0, 0],
            color1: 0,
            pos2: [0, 0, 0],
            color2: 0,
        }
    }
}

/// Whether records of the given sizes in bytes are laid out as this crate's
/// records are.
pub open spec fn layout_agrees(point_size: usize, line_size: usize, triangle_size: usize) -> bool {
    point_size == POINT_SIZE && line_size == LINE_SIZE && triangle_size == TRIANGLE_SIZE
}

/// Holds the sizes of the engine's three records against this crate's. An
/// embedding calls this once, before it lets any array of the engine be
/// read as records, and goes no further on an error.
pub fn check_layout(point_size: usize, line_size: usize, triangle_size: usize) -> (r: Result<
    (),
    BufferError,
>)
    ensures
        r is Ok <==> layout_agrees(point_size, line_size, triangle_size),
        r is Err ==> r == Err::<(), BufferError>(BufferError::LayoutMismatch),
{
    if point_size == POINT_SIZE && line_size == LINE_SIZE && triangle_size == TRIANGLE_SIZE {
        Ok(())
    } else {
        Err(BufferError::LayoutMismatch)
    }
}

} // verus!
