//! What holds of the owning handle's operations taken together.
//!
//! Each law speaks of the engine's buffers before an operation and of what
//! the handle's functions return after it, through the spec functions that
//! their contracts are stated with.

use crate::engine::BufferContents;
use crate::error::BufferError;
use crate::owned::RenderBufferMut;
use crate::records::{DebugLine, DebugPoint, DebugTriangle};
use vstd::prelude::*;

verus! {

/// After `clear`, the handle counts no point, no line and no triangle,
/// however many its buffer held before.
pub proof fn lemma_clear_leaves_nothing(
    handle: RenderBufferMut,
    buffers: Map<usize, BufferContents>,
)
    requires
        handle.contents(buffers) is Some,
    ensures
        handle.point_count_in(handle.after_clear(buffers)) == Ok::<u32, BufferError>(0),
        handle.line_count_in(handle.after_clear(buffers)) == Ok::<u32, BufferError>(0),
        handle.triangle_count_in(handle.after_clear(buffers)) == Ok::<u32, BufferError>(0),
{
}

/// Clearing twice is clearing once: the second `clear` changes nothing, and
/// all counts are zero after the first as after the second.
pub proof fn lemma_clear_twice(handle: RenderBufferMut, buffers: Map<usize, BufferContents>)
    requires
        handle.contents(buffers) is Some,
    ensures
        handle.after_clear(handle.after_clear(buffers)) == handle.after_clear(buffers),
        handle.contents(handle.after_clear(buffers)) == Some(BufferContents::empty()),
        handle.contents(handle.after_clear(handle.after_clear(buffers))) == Some(
            BufferContents::empty(),
        ),
        handle.point_count_in(handle.after_clear(handle.after_clear(buffers))) == Ok::<
            u32,
            BufferError,
        >(0),
        handle.line_count_in(handle.after_clear(handle.after_clear(buffers))) == Ok::<
            u32,
            BufferError,
        >(0),
        handle.triangle_count_in(handle.after_clear(handle.after_clear(buffers))) == Ok::<
            u32,
            BufferError,
        >(0),
{
    let once = handle.after_clear(buffers);
    assert(handle.after_clear(once) =~= once);
}

/// `clear` leaves every other buffer as it was.
pub proof fn lemma_clear_spares_others(
    handle: RenderBufferMut,
    buffers: Map<usize, BufferContents>,
    bystander: usize,
)
    requires
        handle@ != Some(bystander),
    ensures
        handle.after_clear(buffers).contains_key(bystander) == buffers.contains_key(bystander),
        handle.after_clear(buffers)[bystander] == buffers[bystander],
{
}

/// After `append`, each count of the handle is its count before plus that
/// of the other handle, and the handle holds its own records followed by
/// the other's.
pub proof fn lemma_append_adds_counts(
    handle: RenderBufferMut,
    other: RenderBufferMut,
    buffers: Map<usize, BufferContents>,
)
    requires
        handle.can_append(other, buffers),
    ensures
        handle.point_count_in(handle.after_append(other, buffers)) matches Ok(count)
            && count == handle.point_count_in(buffers)->Ok_0 + other.point_count_in(
            buffers,
        )->Ok_0,
        handle.line_count_in(handle.after_append(other, buffers)) matches Ok(count) && count
            == handle.line_count_in(buffers)->Ok_0 + other.line_count_in(buffers)->Ok_0,
        handle.triangle_count_in(handle.after_append(other, buffers)) matches Ok(count)
            && count == handle.triangle_count_in(buffers)->Ok_0 + other.triangle_count_in(
            buffers,
        )->Ok_0,
        handle.contents(handle.after_append(other, buffers)) == Some(
            handle.contents(buffers)->0.followed_by(other.contents(buffers)->0),
        ),
{
}

/// Where `append` does not go through, it changes nothing: the engine's
/// buffers are afterwards what they were.
pub proof fn lemma_refused_append_changes_nothing(
    handle: RenderBufferMut,
    other: RenderBufferMut,
    buffers: Map<usize, BufferContents>,
)
    requires
        !handle.can_append(other, buffers),
    ensures
        handle.after_append(other, buffers) == buffers,
{
}

/// `append` leaves the other handle's buffer as it was, where the two
/// handles own different buffers.
pub proof fn lemma_append_spares_other(
    handle: RenderBufferMut,
    other: RenderBufferMut,
    buffers: Map<usize, BufferContents>,
)
    requires
        handle@ != other@,
    ensures
        other.contents(handle.after_append(other, buffers)) == other.contents(buffers),
{
}

/// Appending a buffer to an empty one and reading the records back gives
/// the records of the appended buffer, each kind in its order.
pub proof fn lemma_append_to_empty_round_trip(
    fresh: RenderBufferMut,
    source: RenderBufferMut,
    buffers: Map<usize, BufferContents>,
)
    requires
        fresh.contents(buffers) == Some(BufferContents::empty()),
        source.contents(buffers) matches Some(held) && held.countable(),
    ensures
        fresh.can_append(source, buffers),
        fresh.points_in(fresh.after_append(source, buffers)) == source.points_in(buffers),
        fresh.lines_in(fresh.after_append(source, buffers)) == source.lines_in(buffers),
        fresh.triangles_in(fresh.after_append(source, buffers)) == source.triangles_in(
            buffers,
        ),
{
    let held = source.contents(buffers)->0;
    let joined = BufferContents::empty().followed_by(held);
    assert(joined.points =~= held.points);
    assert(joined.lines =~= held.lines);
    assert(joined.triangles =~= held.triangles);
}

/// A released handle is turned away by every accessor and changes nothing
/// in the engine: not by `clear`, not by `append`, not by a second
/// `release`.
pub proof fn lemma_released_handle_is_turned_away(
    handle: RenderBufferMut,
    other: RenderBufferMut,
    buffers: Map<usize, BufferContents>,
)
    requires
        handle@ is None,
    ensures
        handle.point_count_in(buffers) == Err::<u32, BufferError>(BufferError::InvalidHandle),
        handle.line_count_in(buffers) == Err::<u32, BufferError>(BufferError::InvalidHandle),
        handle.triangle_count_in(buffers) == Err::<u32, BufferError>(BufferError::InvalidHandle),
        handle.points_in(buffers) == Err::<Seq<DebugPoint>, BufferError>(
            BufferError::InvalidHandle,
        ),
        handle.lines_in(buffers) == Err::<Seq<DebugLine>, BufferError>(BufferError::InvalidHandle),
        handle.triangles_in(buffers) == Err::<Seq<DebugTriangle>, BufferError>(
            BufferError::InvalidHandle,
        ),
        handle.after_clear(buffers) == buffers,
        handle.after_append(other, buffers) == buffers,
        other.after_append(handle, buffers) == buffers,
        handle.after_release(buffers) == buffers,
{
}

/// `release` deletes the handle's buffer and no other.
pub proof fn lemma_release_deletes_one(
    handle: RenderBufferMut,
    buffers: Map<usize, BufferContents>,
    bystander: usize,
)
    requires
        handle.contents(buffers) is Some,
        handle@ != Some(bystander),
    ensures
        !handle.after_release(buffers).contains_key(handle@->0),
        handle.after_release(buffers).contains_key(bystander) == buffers.contains_key(bystander),
        handle.after_release(buffers)[bystander] == buffers[bystander],
{
}

} // verus!
