//! The view that reads an engine buffer without owning it.
//!
//! A view borrows the engine for as long as it lives. While it does, nothing
//! can change or delete the buffer, so a view never goes stale and its
//! accessors cannot fail: what is checked when the view is made holds until
//! it is dropped. A view cannot clear, append or release.
//!
//! The accessors copy, as those of the owning handle do.

use crate::engine::{refuse_null, BufferContents, Engine};
use crate::error::BufferError;
use crate::records::{DebugLine, DebugPoint, DebugTriangle};
use crate::words::{copy_lines, copy_points, copy_triangles};
use vstd::prelude::*;

verus! {

/// Read-only access to one engine buffer for the lifetime `'a`.
pub struct RenderBuffer<'a> {
    ptr: usize,
    engine: &'a Engine,
}

impl<'a> RenderBuffer<'a> {
    #[verifier::type_invariant]
    spec fn inv(self) -> bool {
        self.engine@.contains_key(self.ptr)
    }

    /// The reference of the buffer that the view reads.
    pub closed spec fn reference(self) -> usize {
        self.ptr
    }

    /// What the buffer holds.
    pub closed spec fn contents(self) -> BufferContents {
        self.engine@[self.ptr]
    }

    /// A view of the buffer under `reference`. The null reference is
    /// refused, and so is one under which the engine has no buffer.
    pub fn from_ptr(reference: usize, engine: &'a Engine) -> (r: Result<
        RenderBuffer<'a>,
        BufferError,
    >)
        ensures
            r is Ok <==> engine@.contains_key(reference),
            r matches Ok(view) ==> view.reference() == reference && view.contents()
                == engine@[reference],
            r matches Err(e) ==> e == (if reference == 0 {
                BufferError::NullPointer
            } else {
                BufferError::InvalidHandle
            }),
    {
        proof {
            engine.lemma_null_is_no_buffer();
        }
        match refuse_null(reference) {
            Ok(checked) => {
                if engine.contains(checked) {
                    Ok(RenderBuffer { ptr: checked, engine })
                } else {
                    Err(BufferError::InvalidHandle)
                }
            },
            Err(e) => Err(e),
        }
    }

    /// The number of points in the buffer.
    pub fn get_number_points(&self) -> (count: u32)
        ensures
            count == self.contents().points.len(),
    {
        proof {
            use_type_invariant(self);
        }
        match self.engine.get_point_count(self.ptr) {
            Ok(count) => count,
            Err(_) => 0,
        }
    }

    /// The points in the buffer, copied out of the engine's array.
    pub fn get_points(&self) -> (points: Vec<DebugPoint>)
        ensures
            points@ == self.contents().points,
    {
        proof {
            use_type_invariant(self);
        }
        let count = self.get_number_points();
        match self.engine.get_points(self.ptr) {
            Ok(words) => match copy_points(count, words) {
                Ok(points) => points,
                Err(_) => Vec::new(),
            },
            Err(_) => Vec::new(),
        }
    }

    /// The number of lines in the buffer.
    pub fn get_number_lines(&self) -> (count: u32)
        ensures
            count == self.contents().lines.len(),
    {
        proof {
            use_type_invariant(self);
        }
        match self.engine.get_line_count(self.ptr) {
            Ok(count) => count,
            Err(_) => 0,
        }
    }

    /// The lines in the buffer, copied out of the engine's array.
    pub fn get_lines(&self) -> (lines: Vec<DebugLine>)
        ensures
            lines@ == self.contents().lines,
    {
        proof {
            use_type_invariant(self);
        }
        let count = self.get_number_lines();
        match self.engine.get_lines(self.ptr) {
            Ok(words) => match copy_lines(count, words) {
                Ok(lines) => lines,
                Err(_) => Vec::new(),
            },
            Err(_) => Vec::new(),
        }
    }

    /// The number of triangles in the buffer.
    pub fn get_number_triangles(&self) -> (count: u32)
        ensures
            count == self.contents().triangles.len(),
    {
        proof {
            use_type_invariant(self);
        }
        match self.engine.get_triangle_count(self.ptr) {
            Ok(count) => count,
            Err(_) => 0,
        }
    }

    /// The triangles in the buffer, copied out of the engine's array.
    pub fn get_triangles(&self) -> (triangles: Vec<DebugTriangle>)
        ensures
            triangles@ == self.contents().triangles,
    {
        proof {
            use_type_invariant(self);
        }
        let count = self.get_number_triangles();
        match self.engine.get_triangles(self.ptr) {
            Ok(words) => match copy_triangles(count, words) {
                Ok(triangles) => triangles,
                Err(_) => Vec::new(),
            },
            Err(_) => Vec::new(),
        }
    }
}

} // verus!
