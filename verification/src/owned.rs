//! The handle that owns an engine buffer.
//!
//! A handle is made from a buffer's reference and is from then on the one
//! holder that may change the buffer and the one that deletes it. Deleting
//! happens once: `release` asks the engine to delete and empties the handle,
//! and an emptied handle is turned away by every operation, `release`
//! included. That no second handle is made from the same reference is the
//! caller's promise; a reference alone does not show whether it is owned.
//!
//! The accessors copy: each returns records of its own, read out of the
//! engine's array at the time of the call.

use crate::engine::{appended, cleared, deleted, refuse_null, BufferContents, Engine};
use crate::error::BufferError;
use crate::records::{DebugLine, DebugPoint, DebugTriangle};
use crate::words::{copy_lines, copy_points, copy_triangles};
use vstd::prelude::*;

verus! {

/// Exclusive owner of one engine buffer, until released.
pub struct RenderBufferMut {
    /// The buffer's reference; null once the handle is released.
    ptr: usize,
}

impl View for RenderBufferMut {
    type V = Option<usize>;

    /// The reference of the buffer that the handle owns, or `None` once it
    /// is released.
    closed spec fn view(&self) -> Option<usize> {
        if self.ptr == 0 {
            None
        } else {
            Some(self.ptr)
        }
    }
}

impl RenderBufferMut {
    /// What the handle's buffer holds among `buffers`: nothing to be had
    /// from a released handle, nor from one whose buffer is not there.
    pub open spec fn contents(self, buffers: Map<usize, BufferContents>) -> Option<
        BufferContents,
    > {
        match self@ {
            Some(buffer) if buffers.contains_key(buffer) => Some(buffers[buffer]),
            _ => None,
        }
    }

    /// What `get_number_points` returns.
    pub open spec fn point_count_in(self, buffers: Map<usize, BufferContents>) -> Result<
        u32,
        BufferError,
    > {
        match self.contents(buffers) {
            Some(contents) => Ok(contents.points.len() as u32),
            None => Err(BufferError::InvalidHandle),
        }
    }

    /// What `get_number_lines` returns.
    pub open spec fn line_count_in(self, buffers: Map<usize, BufferContents>) -> Result<
        u32,
        BufferError,
    > {
        match self.contents(buffers) {
            Some(contents) => Ok(contents.lines.len() as u32),
            None => Err(BufferError::InvalidHandle),
        }
    }

    /// What `get_number_triangles` returns.
    pub open spec fn triangle_count_in(self, buffers: Map<usize, BufferContents>) -> Result<
        u32,
        BufferError,
    > {
        match self.contents(buffers) {
            Some(contents) => Ok(contents.triangles.len() as u32),
            None => Err(BufferError::InvalidHandle),
        }
    }

    /// The records that `get_points` returns.
    pub open spec fn points_in(self, buffers: Map<usize, BufferContents>) -> Result<
        Seq<DebugPoint>,
        BufferError,
    > {
        match self.contents(buffers) {
            Some(contents) => Ok(contents.points),
            None => Err(BufferError::InvalidHandle),
        }
    }

    /// The records that `get_lines` returns.
    pub open spec fn lines_in(self, buffers: Map<usize, BufferContents>) -> Result<
        Seq<DebugLine>,
        BufferError,
    > {
        match self.contents(buffers) {
            Some(contents) => Ok(contents.lines),
            None => Err(BufferError::InvalidHandle),
        }
    }

    /// The records that `get_triangles` returns.
    pub open spec fn triangles_in(self, buffers: Map<usize, BufferContents>) -> Result<
        Seq<DebugTriangle>,
        BufferError,
    > {
        match self.contents(buffers) {
            Some(contents) => Ok(contents.triangles),
            None => Err(BufferError::InvalidHandle),
        }
    }

    /// The engine's buffers after `clear`.
    pub open spec fn after_clear(self, buffers: Map<usize, BufferContents>) -> Map<
        usize,
        BufferContents,
    > {
        if self.contents(buffers) is Some {
            cleared(buffers, self@->0)
        } else {
            buffers
        }
    }

    /// Whether `append` goes through: both handles have their buffers, and
    /// 32-bit counts can number what the two hold together.
    pub open spec fn can_append(
        self,
        other: RenderBufferMut,
        buffers: Map<usize, BufferContents>,
    ) -> bool {
        &&& self.contents(buffers) matches Some(mine)
        &&& other.contents(buffers) matches Some(theirs)
        &&& mine.followed_by(theirs).countable()
    }

    /// The engine's buffers after `append`.
    pub open spec fn after_append(
        self,
        other: RenderBufferMut,
        buffers: Map<usize, BufferContents>,
    ) -> Map<usize, BufferContents> {
        if self.can_append(other, buffers) {
            appended(buffers, self@->0, other@->0)
        } else {
            buffers
        }
    }

    /// The engine's buffers after `release`.
    pub open spec fn after_release(self, buffers: Map<usize, BufferContents>) -> Map<
        usize,
        BufferContents,
    > {
        if self.contents(buffers) is Some {
            deleted(buffers, self@->0)
        } else {
            buffers
        }
    }

    /// A handle never holds the null reference.
    pub proof fn lemma_never_null(self)
        ensures
            self@ != Some(0usize),
    {
    }

    /// Adopts the buffer under `reference`. The null reference is refused.
    pub fn from_ptr(reference: usize) -> (r: Result<RenderBufferMut, BufferError>)
        ensures
            r is Ok <==> reference != 0,
            r matches Ok(handle) ==> handle@ == Some(reference),
            r matches Err(e) ==> e == BufferError::NullPointer,
    {
        match refuse_null(reference) {
            Ok(checked) => Ok(RenderBufferMut { ptr: checked }),
            Err(e) => Err(e),
        }
    }

    /// The reference of the buffer that the handle owns.
    pub fn address(&self) -> (r: Result<usize, BufferError>)
        ensures
            r is Ok <==> self@ is Some,
            r matches Ok(buffer) ==> self@ == Some(buffer),
            r matches Err(e) ==> e == BufferError::InvalidHandle,
    {
        if self.ptr == 0 {
            Err(BufferError::InvalidHandle)
        } else {
            Ok(self.ptr)
        }
    }

    /// Gives up the buffer without deleting it: empties the handle and
    /// returns the reference, for the caller to delete.
    pub fn disown(&mut self) -> (r: Result<usize, BufferError>)
        ensures
            final(self)@ is None,
            r is Ok <==> old(self)@ is Some,
            r matches Ok(buffer) ==> old(self)@ == Some(buffer),
            r matches Err(e) ==> e == BufferError::InvalidHandle,
    {
        let r = self.address();
        self.ptr = 0;
        r
    }

    /// Empties the buffer: it holds no point, line or triangle afterwards.
    pub fn clear(&mut self, engine: &mut Engine) -> (r: Result<(), BufferError>)
        ensures
            final(self)@ == old(self)@,
            r is Ok <==> old(self).contents(old(engine)@) is Some,
            r matches Err(e) ==> e == BufferError::InvalidHandle,
            final(engine)@ == old(self).after_clear(old(engine)@),
            final(engine).allocated() == old(engine).allocated(),
    {
        match self.address() {
            Ok(buffer) => engine.clear(buffer),
            Err(e) => Err(e),
        }
    }

    /// Appends what the buffer of `other` holds to this handle's buffer,
    /// kind by kind and in order. The buffer of `other` is only read.
    pub fn append(&mut self, other: &RenderBufferMut, engine: &mut Engine) -> (r: Result<
        (),
        BufferError,
    >)
        ensures
            final(self)@ == old(self)@,
            r is Ok <==> old(self).can_append(*other, old(engine)@),
            r matches Err(e) ==> e == (if old(self).contents(old(engine)@) is Some
                && other.contents(old(engine)@) is Some {
                BufferError::CapacityExceeded
            } else {
                BufferError::InvalidHandle
            }),
            final(engine)@ == old(self).after_append(*other, old(engine)@),
            final(engine).allocated() == old(engine).allocated(),
    {
        let buffer = match self.address() {
            Ok(buffer) => buffer,
            Err(e) => {
                return Err(e);
            },
        };
        let source = match other.address() {
            Ok(source) => source,
            Err(e) => {
                return Err(e);
            },
        };
        engine.append(buffer, source)
    }

    /// The number of points in the buffer, as the engine has it now.
    pub fn get_number_points(&self, engine: &Engine) -> (r: Result<u32, BufferError>)
        ensures
            r == self.point_count_in(engine@),
            r matches Ok(count) ==> count == self.contents(engine@)->0.points.len(),
    {
        match self.address() {
            Ok(buffer) => engine.get_point_count(buffer),
            Err(e) => Err(e),
        }
    }

    /// The points in the buffer, copied out of the engine's array. The count
    /// is asked for right before the copy and sizes the result.
    pub fn get_points(&self, engine: &Engine) -> (r: Result<Vec<DebugPoint>, BufferError>)
        ensures
            r is Ok <==> self.points_in(engine@) is Ok,
            r matches Ok(points) ==> self.points_in(engine@) == Ok::<Seq<DebugPoint>, BufferError>(
                points@,
            ),
            r matches Err(e) ==> e == BufferError::InvalidHandle,
    {
        let buffer = match self.address() {
            Ok(buffer) => buffer,
            Err(e) => {
                return Err(e);
            },
        };
        let count = match engine.get_point_count(buffer) {
            Ok(count) => count,
            Err(e) => {
                return Err(e);
            },
        };
        match engine.get_points(buffer) {
            Ok(words) => copy_points(count, words),
            Err(e) => Err(e),
        }
    }

    /// The number of lines in the buffer, as the engine has it now.
    pub fn get_number_lines(&self, engine: &Engine) -> (r: Result<u32, BufferError>)
        ensures
            r == self.line_count_in(engine@),
            r matches Ok(count) ==> count == self.contents(engine@)->0.lines.len(),
    {
        match self.address() {
            Ok(buffer) => engine.get_line_count(buffer),
            Err(e) => Err(e),
        }
    }

    /// The lines in the buffer, copied out of the engine's array.
    pub fn get_lines(&self, engine: &Engine) -> (r: Result<Vec<DebugLine>, BufferError>)
        ensures
            r is Ok <==> self.lines_in(engine@) is Ok,
            r matches Ok(lines) ==> self.lines_in(engine@) == Ok::<Seq<DebugLine>, BufferError>(
                lines@,
            ),
            r matches Err(e) ==> e == BufferError::InvalidHandle,
    {
        let buffer = match self.address() {
            Ok(buffer) => buffer,
            Err(e) => {
                return Err(e);
            },
        };
        let count = match engine.get_line_count(buffer) {
            Ok(count) => count,
            Err(e) => {
                return Err(e);
            },
        };
        match engine.get_lines(buffer) {
            Ok(words) => copy_lines(count, words),
            Err(e) => Err(e),
        }
    }

    /// The number of triangles in the buffer, as the engine has it now.
    pub fn get_number_triangles(&self, engine: &Engine) -> (r: Result<u32, BufferError>)
        ensures
            r == self.triangle_count_in(engine@),
            r matches Ok(count) ==> count == self.contents(engine@)->0.triangles.len(),
    {
        match self.address() {
            Ok(buffer) => engine.get_triangle_count(buffer),
            Err(e) => Err(e),
        }
    }

    /// The triangles in the buffer, copied out of the engine's array.
    pub fn get_triangles(&self, engine: &Engine) -> (r: Result<Vec<DebugTriangle>, BufferError>)
        ensures
            r is Ok <==> self.triangles_in(engine@) is Ok,
            r matches Ok(triangles) ==> self.triangles_in(engine@) == Ok::<
                Seq<DebugTriangle>,
                BufferError,
            >(triangles@),
            r matches Err(e) ==> e == BufferError::InvalidHandle,
    {
        let buffer = match self.address() {
            Ok(buffer) => buffer,
            Err(e) => {
                return Err(e);
            },
        };
        let count = match engine.get_triangle_count(buffer) {
            Ok(count) => count,
            Err(e) => {
                return Err(e);
            },
        };
        match engine.get_triangles(buffer) {
            Ok(words) => copy_triangles(count, words),
            Err(e) => Err(e),
        }
    }

    /// Has the engine delete the buffer and empties the handle. A handle is
    /// empty after this whatever the engine found; a second call finds
    /// nothing to delete and is turned away.
    pub fn release(&mut self, engine: &mut Engine) -> (r: Result<(), BufferError>)
        ensures
            final(self)@ is None,
            r is Ok <==> old(self).contents(old(engine)@) is Some,
            r matches Err(e) ==> e == BufferError::InvalidHandle,
            final(engine)@ == old(self).after_release(old(engine)@),
            final(engine).allocated() == old(engine).allocated(),
    {
        match self.disown() {
            Ok(buffer) => engine.delete_buffer(buffer),
            Err(e) => Err(e),
        }
    }
}

} // verus!
