//! The engine's side of the bridge, held in ordinary memory.
//!
//! An `Engine` keeps geometry buffers in a table and hands out references to
//! them. A reference is the buffer's place in the table counted from one, so
//! that zero is left over as the null reference, and a place is never given
//! out twice: the reference of a deleted buffer stays dead. Each buffer keeps
//! its three arrays as raw words, and that is how the engine hands them over.

use crate::error::BufferError;
use crate::records::{DebugLine, DebugPoint, DebugTriangle};
use crate::words::{
    lemma_line_round_trip, lemma_lines_joined, lemma_point_round_trip, lemma_points_joined,
    lemma_triangle_round_trip, lemma_triangles_joined, line_to_words, lines_from_words,
    point_to_words, points_from_words, triangle_to_words, triangles_from_words, write_line,
    write_point, write_triangle,
};
use vstd::prelude::*;
use vstd::slice::slice_to_vec;

verus! {

/// What a buffer holds: its points, lines and triangles, each in the order
/// in which they were added.
pub struct BufferContents {
    pub points: Seq<DebugPoint>,
    pub lines: Seq<DebugLine>,
    pub triangles: Seq<DebugTriangle>,
}

impl BufferContents {
    /// A buffer with nothing in it.
    pub open spec fn empty() -> BufferContents {
        BufferContents { points: Seq::empty(), lines: Seq::empty(), triangles: Seq::empty() }
    }

    /// These contents with those of `other` behind them, kind by kind.
    pub open spec fn followed_by(self, other: BufferContents) -> BufferContents {
        BufferContents {
            points: self.points + other.points,
            lines: self.lines + other.lines,
            triangles: self.triangles + other.triangles,
        }
    }

    /// These contents with one more point.
    pub open spec fn with_point(self, point: DebugPoint) -> BufferContents {
        BufferContents { points: self.points.push(point), ..self }
    }

    /// These contents with one more line.
    pub open spec fn with_line(self, line: DebugLine) -> BufferContents {
        BufferContents { lines: self.lines.push(line), ..self }
    }

    /// These contents with one more triangle.
    pub open spec fn with_triangle(self, triangle: DebugTriangle) -> BufferContents {
        BufferContents { triangles: self.triangles.push(triangle), ..self }
    }

    /// Whether a 32-bit count can number the records of each kind.
    pub open spec fn countable(self) -> bool {
        &&& self.points.len() <= u32::MAX
        &&& self.lines.len() <= u32::MAX
        &&& self.triangles.len() <= u32::MAX
    }
}

/// The buffers after `buffer` was cleared.
pub open spec fn cleared(buffers: Map<usize, BufferContents>, buffer: usize) -> Map<
    usize,
    BufferContents,
> {
    buffers.insert(buffer, BufferContents::empty())
}

/// The buffers after the contents of `other` were appended to `buffer`.
pub open spec fn appended(buffers: Map<usize, BufferContents>, buffer: usize, other: usize) -> Map<
    usize,
    BufferContents,
> {
    buffers.insert(buffer, buffers[buffer].followed_by(buffers[other]))
}

/// The buffers after `buffer` was deleted.
pub open spec fn deleted(buffers: Map<usize, BufferContents>, buffer: usize) -> Map<
    usize,
    BufferContents,
> {
    buffers.remove(buffer)
}

/// Turns the null reference away and hands any other back. No engine is
/// asked: whether a buffer stands under the reference is another matter.
pub fn refuse_null(reference: usize) -> (r: Result<usize, BufferError>)
    ensures
        r is Ok <==> reference != 0,
        r matches Ok(checked) ==> checked == reference,
        r matches Err(e) ==> e == BufferError::NullPointer,
{
    if reference == 0 {
        Err(BufferError::NullPointer)
    } else {
        Ok(reference)
    }
}

/// One buffer as the engine keeps it: three arrays of raw words.
struct RawBuffer {
    points: Vec<u32>,
    lines: Vec<u32>,
    triangles: Vec<u32>,
}

impl RawBuffer {
    /// Each array holds whole records, and no more than a count can number.
    spec fn wf(self) -> bool {
        &&& self.points@.len() % 4 == 0
        &&& self.lines@.len() % 8 == 0
        &&& self.triangles@.len() % 12 == 0
        &&& self.contents().countable()
    }

    spec fn contents(self) -> BufferContents {
        BufferContents {
            points: points_from_words(self.points@),
            lines: lines_from_words(self.lines@),
            triangles: triangles_from_words(self.triangles@),
        }
    }

    fn new() -> (raw: RawBuffer)
        ensures
            raw.wf(),
            raw.contents() == BufferContents::empty(),
    {
        let raw = RawBuffer { points: Vec::new(), lines: Vec::new(), triangles: Vec::new() };
        assert(raw.contents().points =~= Seq::empty());
        assert(raw.contents().lines =~= Seq::empty());
        assert(raw.contents().triangles =~= Seq::empty());
        raw
    }
}

/// Every buffer in the table is well formed.
spec fn slots_wf(slots: Seq<Option<RawBuffer>>) -> bool {
    forall|i: int| 0 <= i < slots.len() ==> ((#[trigger] slots[i]) matches Some(raw) ==> raw.wf())
}

/// Whether the table has a buffer under the reference.
spec fn live(slots: Seq<Option<RawBuffer>>, buffer: usize) -> bool {
    1 <= buffer <= slots.len() && slots[buffer - 1] is Some
}

/// The buffers of a table, by reference.
spec fn buffers_of(slots: Seq<Option<RawBuffer>>) -> Map<usize, BufferContents> {
    Map::new(|buffer: usize| live(slots, buffer), |buffer: usize| slots[buffer - 1]->0.contents())
}

/// Putting a buffer in the place of a live one changes that buffer alone.
proof fn lemma_slot_replaced(
    slots: Seq<Option<RawBuffer>>,
    buffer: usize,
    raw: RawBuffer,
)
    requires
        live(slots, buffer),
        slots_wf(slots),
        raw.wf(),
    ensures
        slots_wf(slots.update(buffer - 1, Some(raw))),
        buffers_of(slots.update(buffer - 1, Some(raw))) == buffers_of(slots).insert(
            buffer,
            raw.contents(),
        ),
{
    let after = slots.update(buffer - 1, Some(raw));
    assert forall|a: usize| buffers_of(after).contains_key(a) <==> buffers_of(slots).insert(
        buffer,
        raw.contents(),
    ).contains_key(a) by {
        assert(live(after, a) <==> live(slots, a));
    }
    assert(buffers_of(after) =~= buffers_of(slots).insert(buffer, raw.contents()));
}

/// The buffer under a reference, if the table has one.
fn find(slots: &Vec<Option<RawBuffer>>, buffer: usize) -> (found: Option<&RawBuffer>)
    ensures
        found is Some <==> live(slots@, buffer),
        found matches Some(raw) ==> slots@[buffer - 1] == Some(*raw),
{
    if buffer == 0 || buffer > slots.len() {
        return None;
    }
    slots[buffer - 1].as_ref()
}

/// Takes the buffer under a reference out of the table, leaving its place
/// empty.
fn take(slots: &mut Vec<Option<RawBuffer>>, buffer: usize) -> (taken: Option<RawBuffer>)
    ensures
        taken is Some <==> live(old(slots)@, buffer),
        taken matches Some(raw) ==> old(slots)@[buffer - 1] == Some(raw) && final(slots)@ == old(
            slots,
        )@.update(buffer - 1, None),
        taken is None ==> final(slots)@ == old(slots)@,
{
    if buffer == 0 || buffer > slots.len() {
        return None;
    }
    let mut taken: Option<RawBuffer> = None;
    slots.set_and_swap(buffer - 1, &mut taken);
    assert(slots@ =~= old(slots)@.update(buffer - 1, None));
    if taken.is_none() {
        assert(slots@ =~= old(slots)@);
    }
    taken
}

/// Puts a buffer back in the place that `take` emptied.
fn put(slots: &mut Vec<Option<RawBuffer>>, buffer: usize, raw: RawBuffer)
    requires
        1 <= buffer <= old(slots)@.len(),
    ensures
        final(slots)@ == old(slots)@.update(buffer - 1, Some(raw)),
{
    slots.set(buffer - 1, Some(raw));
}

/// What became of a table whose buffer under `buffer` was taken out,
/// changed into `raw` and put back.
proof fn lemma_taken_and_put(
    before: Seq<Option<RawBuffer>>,
    after: Seq<Option<RawBuffer>>,
    buffer: usize,
    raw: RawBuffer,
)
    requires
        live(before, buffer),
        slots_wf(before),
        raw.wf(),
        after == before.update(buffer - 1, None).update(buffer - 1, Some(raw)),
    ensures
        slots_wf(after),
        after.len() == before.len(),
        buffers_of(after) == buffers_of(before).insert(buffer, raw.contents()),
{
    assert(after =~= before.update(buffer - 1, Some(raw)));
    lemma_slot_replaced(before, buffer, raw);
}

/// Adds a point to the buffer under a reference.
fn add_point_in(
    slots: &mut Vec<Option<RawBuffer>>,
    buffer: usize,
    point: &DebugPoint,
) -> (r: Result<(), BufferError>)
    requires
        slots_wf(old(slots)@),
    ensures
        slots_wf(final(slots)@),
        final(slots)@.len() == old(slots)@.len(),
        r is Ok <==> live(old(slots)@, buffer) && buffers_of(old(slots)@)[buffer].points.len()
            < u32::MAX,
        r is Ok ==> buffers_of(final(slots)@) == buffers_of(old(slots)@).insert(
            buffer,
            buffers_of(old(slots)@)[buffer].with_point(*point),
        ),
        r matches Err(e) ==> final(slots)@ == old(slots)@ && e == (if live(old(slots)@, buffer) {
            BufferError::CapacityExceeded
        } else {
            BufferError::InvalidHandle
        }),
{
    match take(slots, buffer) {
        None => Err(BufferError::InvalidHandle),
        Some(mut raw) => {
            let ghost before = raw;
            let full = raw.points.len() / 4 >= u32::MAX as usize;
            if !full {
                write_point(point, &mut raw.points);
                proof {
                    lemma_points_joined(before.points@, point_to_words(*point));
                    lemma_point_round_trip(*point);
                    assert(raw.contents().points =~= before.contents().points.push(*point));
                    assert(raw.contents() == before.contents().with_point(*point));
                }
            }
            put(slots, buffer, raw);
            proof {
                lemma_taken_and_put(old(slots)@, slots@, buffer, raw);
                if full {
                    assert(slots@ =~= old(slots)@);
                }
            }
            if full {
                Err(BufferError::CapacityExceeded)
            } else {
                Ok(())
            }
        },
    }
}

/// Adds a line to the buffer under a reference.
fn add_line_in(
    slots: &mut Vec<Option<RawBuffer>>,
    buffer: usize,
    line: &DebugLine,
) -> (r: Result<(), BufferError>)
    requires
        slots_wf(old(slots)@),
    ensures
        slots_wf(final(slots)@),
        final(slots)@.len() == old(slots)@.len(),
        r is Ok <==> live(old(slots)@, buffer) && buffers_of(old(slots)@)[buffer].lines.len()
            < u32::MAX,
        r is Ok ==> buffers_of(final(slots)@) == buffers_of(old(slots)@).insert(
            buffer,
            buffers_of(old(slots)@)[buffer].with_line(*line),
        ),
        r matches Err(e) ==> final(slots)@ == old(slots)@ && e == (if live(old(slots)@, buffer) {
            BufferError::CapacityExceeded
        } else {
            BufferError::InvalidHandle
        }),
{
    match take(slots, buffer) {
        None => Err(BufferError::InvalidHandle),
        Some(mut raw) => {
            let ghost before = raw;
            let full = raw.lines.len() / 8 >= u32::MAX as usize;
            if !full {
                write_line(line, &mut raw.lines);
                proof {
                    lemma_lines_joined(before.lines@, line_to_words(*line));
                    lemma_line_round_trip(*line);
                    assert(raw.contents().lines =~= before.contents().lines.push(*line));
                    assert(raw.contents() == before.contents().with_line(*line));
                }
            }
            put(slots, buffer, raw);
            proof {
                lemma_taken_and_put(old(slots)@, slots@, buffer, raw);
                if full {
                    assert(slots@ =~= old(slots)@);
                }
            }
            if full {
                Err(BufferError::CapacityExceeded)
            } else {
                Ok(())
            }
        },
    }
}

/// Adds a triangle to the buffer under a reference.
fn add_triangle_in(
    slots: &mut Vec<Option<RawBuffer>>,
    buffer: usize,
    triangle: &DebugTriangle,
) -> (r: Result<(), BufferError>)
    requires
        slots_wf(old(slots)@),
    ensures
        slots_wf(final(slots)@),
        final(slots)@.len() == old(slots)@.len(),
        r is Ok <==> live(old(slots)@, buffer) && buffers_of(old(slots)@)[buffer].triangles.len()
            < u32::MAX,
        r is Ok ==> buffers_of(final(slots)@) == buffers_of(old(slots)@).insert(
            buffer,
            buffers_of(old(slots)@)[buffer].with_triangle(*triangle),
        ),
        r matches Err(e) ==> final(slots)@ == old(slots)@ && e == (if live(old(slots)@, buffer) {
            BufferError::CapacityExceeded
        } else {
            BufferError::InvalidHandle
        }),
{
    match take(slots, buffer) {
        None => Err(BufferError::InvalidHandle),
        Some(mut raw) => {
            let ghost before = raw;
            let full = raw.triangles.len() / 12 >= u32::MAX as usize;
            if !full {
                write_triangle(triangle, &mut raw.triangles);
                proof {
                    lemma_triangles_joined(before.triangles@, triangle_to_words(*triangle));
                    lemma_triangle_round_trip(*triangle);
                    assert(raw.contents().triangles =~= before.contents().triangles.push(
                        *triangle,
                    ));
                    assert(raw.contents() == before.contents().with_triangle(*triangle));
                }
            }
            put(slots, buffer, raw);
            proof {
                lemma_taken_and_put(old(slots)@, slots@, buffer, raw);
                if full {
                    assert(slots@ =~= old(slots)@);
                }
            }
            if full {
                Err(BufferError::CapacityExceeded)
            } else {
                Ok(())
            }
        },
    }
}

/// Empties the buffer under a reference.
fn clear_in(slots: &mut Vec<Option<RawBuffer>>, buffer: usize) -> (r: Result<
    (),
    BufferError,
>)
    requires
        slots_wf(old(slots)@),
    ensures
        slots_wf(final(slots)@),
        final(slots)@.len() == old(slots)@.len(),
        r is Ok <==> live(old(slots)@, buffer),
        r is Ok ==> buffers_of(final(slots)@) == cleared(buffers_of(old(slots)@), buffer),
        r matches Err(e) ==> final(slots)@ == old(slots)@ && e == BufferError::InvalidHandle,
{
    match take(slots, buffer) {
        None => Err(BufferError::InvalidHandle),
        Some(_) => {
            let raw = RawBuffer::new();
            put(slots, buffer, raw);
            proof {
                lemma_taken_and_put(old(slots)@, slots@, buffer, raw);
            }
            Ok(())
        },
    }
}

/// Deletes the buffer under a reference. Its place stays empty for good.
fn delete_in(slots: &mut Vec<Option<RawBuffer>>, buffer: usize) -> (r: Result<
    (),
    BufferError,
>)
    requires
        slots_wf(old(slots)@),
    ensures
        slots_wf(final(slots)@),
        final(slots)@.len() == old(slots)@.len(),
        r is Ok <==> live(old(slots)@, buffer),
        r is Ok ==> buffers_of(final(slots)@) == deleted(buffers_of(old(slots)@), buffer),
        r matches Err(e) ==> final(slots)@ == old(slots)@ && e == BufferError::InvalidHandle,
{
    match take(slots, buffer) {
        None => Err(BufferError::InvalidHandle),
        Some(_) => {
            proof {
                let before = old(slots)@;
                let after = slots@;
                assert forall|a: usize| buffers_of(after).contains_key(a) <==> buffers_of(
                    before,
                ).remove(buffer).contains_key(a) by {
                    assert(live(after, a) <==> (live(before, a) && a != buffer));
                }
                assert(buffers_of(after) =~= buffers_of(before).remove(buffer));
            }
            Ok(())
        },
    }
}

/// Whether two counts of records add up to one that 32 bits can hold.
fn counts_fit(first: usize, second: usize) -> (fit: bool)
    requires
        first <= u32::MAX,
        second <= u32::MAX,
    ensures
        fit == (first + second <= u32::MAX),
{
    first as u64 + second as u64 <= u32::MAX as u64
}

/// Appends the contents of the buffer under `other` to the one under
/// `buffer`, kind by kind.
fn append_in(slots: &mut Vec<Option<RawBuffer>>, buffer: usize, other: usize) -> (r:
    Result<(), BufferError>)
    requires
        slots_wf(old(slots)@),
    ensures
        slots_wf(final(slots)@),
        final(slots)@.len() == old(slots)@.len(),
        r is Ok <==> live(old(slots)@, buffer) && live(old(slots)@, other) && buffers_of(
            old(slots)@,
        )[buffer].followed_by(buffers_of(old(slots)@)[other]).countable(),
        r is Ok ==> buffers_of(final(slots)@) == appended(buffers_of(old(slots)@), buffer, other),
        r matches Err(e) ==> final(slots)@ == old(slots)@ && e == (if live(old(slots)@, buffer)
            && live(old(slots)@, other) {
            BufferError::CapacityExceeded
        } else {
            BufferError::InvalidHandle
        }),
{
    let ghost source = slots@[other - 1]->0;
    let (mut points, mut lines, mut triangles) = match find(slots, other) {
        None => {
            return Err(BufferError::InvalidHandle);
        },
        Some(raw) => (
            slice_to_vec(raw.points.as_slice()),
            slice_to_vec(raw.lines.as_slice()),
            slice_to_vec(raw.triangles.as_slice()),
        ),
    };
    match take(slots, buffer) {
        None => Err(BufferError::InvalidHandle),
        Some(mut raw) => {
            let ghost before = raw;
            let fit = counts_fit(raw.points.len() / 4, points.len() / 4) && counts_fit(
                raw.lines.len() / 8,
                lines.len() / 8,
            ) && counts_fit(raw.triangles.len() / 12, triangles.len() / 12);
            if fit {
                raw.points.append(&mut points);
                raw.lines.append(&mut lines);
                raw.triangles.append(&mut triangles);
                proof {
                    lemma_points_joined(before.points@, source.points@);
                    lemma_lines_joined(before.lines@, source.lines@);
                    lemma_triangles_joined(before.triangles@, source.triangles@);
                    assert(raw.contents() == before.contents().followed_by(source.contents()));
                }
            }
            put(slots, buffer, raw);
            proof {
                lemma_taken_and_put(old(slots)@, slots@, buffer, raw);
                if !fit {
                    assert(slots@ =~= old(slots)@);
                }
            }
            if fit {
                Ok(())
            } else {
                Err(BufferError::CapacityExceeded)
            }
        },
    }
}

/// An engine that keeps its buffers in this process.
pub struct Engine {
    slots: Vec<Option<RawBuffer>>,
}

impl View for Engine {
    type V = Map<usize, BufferContents>;

    /// The live buffers, by reference.
    closed spec fn view(&self) -> Map<usize, BufferContents> {
        buffers_of(self.slots@)
    }
}

impl Engine {
    #[verifier::type_invariant]
    spec fn inv(self) -> bool {
        slots_wf(self.slots@)
    }

    /// How many references the engine has given out so far.
    pub closed spec fn allocated(self) -> nat {
        self.slots@.len()
    }

    /// No engine has a buffer under the null reference.
    pub proof fn lemma_null_is_no_buffer(self)
        ensures
            !self@.contains_key(0),
    {
    }

    /// An engine without buffers.
    pub fn new() -> (engine: Engine)
        ensures
            engine@ == Map::<usize, BufferContents>::empty(),
            engine.allocated() == 0,
    {
        let engine = Engine { slots: Vec::new() };
        assert(engine@ =~= Map::<usize, BufferContents>::empty());
        engine
    }

    /// Whether the engine has a buffer under the reference. It never has one
    /// under the null reference, nor under one it has not given out yet.
    pub fn contains(&self, buffer: usize) -> (found: bool)
        ensures
            found == self@.contains_key(buffer),
            found ==> 1 <= buffer <= self.allocated() && self@[buffer].countable(),
    {
        proof {
            use_type_invariant(self);
        }
        find(&self.slots, buffer).is_some()
    }

    /// Allocates an empty buffer and returns its reference, which is one more
    /// than the number of references given out before.
    pub fn create_buffer(&mut self) -> (r: Result<usize, BufferError>)
        ensures
            r is Ok <==> old(self).allocated() < usize::MAX,
            r matches Ok(buffer) ==> {
                &&& buffer == old(self).allocated() + 1
                &&& !old(self)@.contains_key(buffer)
                &&& final(self)@ == old(self)@.insert(buffer, BufferContents::empty())
                &&& final(self).allocated() == buffer
            },
            r matches Err(e) ==> {
                &&& e == BufferError::CapacityExceeded
                &&& final(self)@ == old(self)@
                &&& final(self).allocated() == old(self).allocated()
            },
    {
        proof {
            use_type_invariant(&*self);
        }
        if self.slots.len() == usize::MAX {
            return Err(BufferError::CapacityExceeded);
        }
        let buffer = self.slots.len() + 1;
        let mut slots: Vec<Option<RawBuffer>> = Vec::new();
        core::mem::swap(&mut self.slots, &mut slots);
        slots.push(Some(RawBuffer::new()));
        self.slots = slots;
        proof {
            let before = old(self).slots@;
            let after = self.slots@;
            assert forall|a: usize| buffers_of(after).contains_key(a) <==> buffers_of(
                before,
            ).insert(buffer, BufferContents::empty()).contains_key(a) by {
                assert(live(after, a) <==> (live(before, a) || a == buffer));
            }
            assert(buffers_of(after) =~= buffers_of(before).insert(
                buffer,
                BufferContents::empty(),
            ));
        }
        Ok(buffer)
    }

    /// Adds a point behind the points that the buffer holds.
    pub fn add_point(&mut self, buffer: usize, point: &DebugPoint) -> (r: Result<(), BufferError>)
        ensures
            r is Ok <==> old(self)@.contains_key(buffer) && old(self)@[buffer].points.len()
                < u32::MAX,
            r is Ok ==> final(self)@ == old(self)@.insert(
                buffer,
                old(self)@[buffer].with_point(*point),
            ),
            r matches Err(e) ==> final(self)@ == old(self)@ && e == (if old(self)@.contains_key(
                buffer,
            ) {
                BufferError::CapacityExceeded
            } else {
                BufferError::InvalidHandle
            }),
            final(self).allocated() == old(self).allocated(),
    {
        proof {
            use_type_invariant(&*self);
        }
        let mut slots: Vec<Option<RawBuffer>> = Vec::new();
        core::mem::swap(&mut self.slots, &mut slots);
        let r = add_point_in(&mut slots, buffer, point);
        self.slots = slots;
        r
    }

    /// Adds a line behind the lines that the buffer holds.
    pub fn add_line(&mut self, buffer: usize, line: &DebugLine) -> (r: Result<(), BufferError>)
        ensures
            r is Ok <==> old(self)@.contains_key(buffer) && old(self)@[buffer].lines.len()
                < u32::MAX,
            r is Ok ==> final(self)@ == old(self)@.insert(
                buffer,
                old(self)@[buffer].with_line(*line),
            ),
            r matches Err(e) ==> final(self)@ == old(self)@ && e == (if old(self)@.contains_key(
                buffer,
            ) {
                BufferError::CapacityExceeded
            } else {
                BufferError::InvalidHandle
            }),
            final(self).allocated() == old(self).allocated(),
    {
        proof {
            use_type_invariant(&*self);
        }
        let mut slots: Vec<Option<RawBuffer>> = Vec::new();
        core::mem::swap(&mut self.slots, &mut slots);
        let r = add_line_in(&mut slots, buffer, line);
        self.slots = slots;
        r
    }

    /// Adds a triangle behind the triangles that the buffer holds.
    pub fn add_triangle(&mut self, buffer: usize, triangle: &DebugTriangle) -> (r: Result<
        (),
        BufferError,
    >)
        ensures
            r is Ok <==> old(self)@.contains_key(buffer) && old(self)@[buffer].triangles.len()
                < u32::MAX,
            r is Ok ==> final(self)@ == old(self)@.insert(
                buffer,
                old(self)@[buffer].with_triangle(*triangle),
            ),
            r matches Err(e) ==> final(self)@ == old(self)@ && e == (if old(self)@.contains_key(
                buffer,
            ) {
                BufferError::CapacityExceeded
            } else {
                BufferError::InvalidHandle
            }),
            final(self).allocated() == old(self).allocated(),
    {
        proof {
            use_type_invariant(&*self);
        }
        let mut slots: Vec<Option<RawBuffer>> = Vec::new();
        core::mem::swap(&mut self.slots, &mut slots);
        let r = add_triangle_in(&mut slots, buffer, triangle);
        self.slots = slots;
        r
    }

    /// The number of points in a buffer.
    pub fn get_point_count(&self, buffer: usize) -> (r: Result<u32, BufferError>)
        ensures
            r is Ok <==> self@.contains_key(buffer),
            r matches Ok(count) ==> count == self@[buffer].points.len(),
            r matches Err(e) ==> e == BufferError::InvalidHandle,
    {
        proof {
            use_type_invariant(self);
        }
        match find(&self.slots, buffer) {
            Some(raw) => Ok((raw.points.len() / 4) as u32),
            None => Err(BufferError::InvalidHandle),
        }
    }

    /// The number of lines in a buffer.
    pub fn get_line_count(&self, buffer: usize) -> (r: Result<u32, BufferError>)
        ensures
            r is Ok <==> self@.contains_key(buffer),
            r matches Ok(count) ==> count == self@[buffer].lines.len(),
            r matches Err(e) ==> e == BufferError::InvalidHandle,
    {
        proof {
            use_type_invariant(self);
        }
        match find(&self.slots, buffer) {
            Some(raw) => Ok((raw.lines.len() / 8) as u32),
            None => Err(BufferError::InvalidHandle),
        }
    }

    /// The number of triangles in a buffer.
    pub fn get_triangle_count(&self, buffer: usize) -> (r: Result<u32, BufferError>)
        ensures
            r is Ok <==> self@.contains_key(buffer),
            r matches Ok(count) ==> count == self@[buffer].triangles.len(),
            r matches Err(e) ==> e == BufferError::InvalidHandle,
    {
        proof {
            use_type_invariant(self);
        }
        match find(&self.slots, buffer) {
            Some(raw) => Ok((raw.triangles.len() / 12) as u32),
            None => Err(BufferError::InvalidHandle),
        }
    }

    /// The array of a buffer's points, as raw words: four to a point. It
    /// stays as it is until the buffer is next changed.
    pub fn get_points(&self, buffer: usize) -> (r: Result<&[u32], BufferError>)
        ensures
            r is Ok <==> self@.contains_key(buffer),
            r matches Ok(words) ==> {
                &&& words@.len() == 4 * self@[buffer].points.len()
                &&& points_from_words(words@) == self@[buffer].points
            },
            r matches Err(e) ==> e == BufferError::InvalidHandle,
    {
        proof {
            use_type_invariant(self);
        }
        match find(&self.slots, buffer) {
            Some(raw) => Ok(raw.points.as_slice()),
            None => Err(BufferError::InvalidHandle),
        }
    }

    /// The array of a buffer's lines, as raw words: eight to a line.
    pub fn get_lines(&self, buffer: usize) -> (r: Result<&[u32], BufferError>)
        ensures
            r is Ok <==> self@.contains_key(buffer),
            r matches Ok(words) ==> {
                &&& words@.len() == 8 * self@[buffer].lines.len()
                &&& lines_from_words(words@) == self@[buffer].lines
            },
            r matches Err(e) ==> e == BufferError::InvalidHandle,
    {
        proof {
            use_type_invariant(self);
        }
        match find(&self.slots, buffer) {
            Some(raw) => Ok(raw.lines.as_slice()),
            None => Err(BufferError::InvalidHandle),
        }
    }

    /// The array of a buffer's triangles, as raw words: twelve to a triangle.
    pub fn get_triangles(&self, buffer: usize) -> (r: Result<&[u32], BufferError>)
        ensures
            r is Ok <==> self@.contains_key(buffer),
            r matches Ok(words) ==> {
                &&& words@.len() == 12 * self@[buffer].triangles.len()
                &&& triangles_from_words(words@) == self@[buffer].triangles
            },
            r matches Err(e) ==> e == BufferError::InvalidHandle,
    {
        proof {
            use_type_invariant(self);
        }
        match find(&self.slots, buffer) {
            Some(raw) => Ok(raw.triangles.as_slice()),
            None => Err(BufferError::InvalidHandle),
        }
    }

    /// Empties a buffer. The buffer itself stays.
    pub fn clear(&mut self, buffer: usize) -> (r: Result<(), BufferError>)
        ensures
            r is Ok <==> old(self)@.contains_key(buffer),
            r is Ok ==> final(self)@ == cleared(old(self)@, buffer),
            r matches Err(e) ==> final(self)@ == old(self)@ && e == BufferError::InvalidHandle,
            final(self).allocated() == old(self).allocated(),
    {
        proof {
            use_type_invariant(&*self);
        }
        let mut slots: Vec<Option<RawBuffer>> = Vec::new();
        core::mem::swap(&mut self.slots, &mut slots);
        let r = clear_in(&mut slots, buffer);
        self.slots = slots;
        r
    }

    /// Appends what `other` holds to `buffer`: its points behind the points,
    /// its lines behind the lines, its triangles behind the triangles. A
    /// buffer appended to itself holds everything twice. Nothing is
    /// appended where a count would no longer fit in 32 bits.
    pub fn append(&mut self, buffer: usize, other: usize) -> (r: Result<(), BufferError>)
        ensures
            r is Ok <==> old(self)@.contains_key(buffer) && old(self)@.contains_key(other) && old(
                self,
            )@[buffer].followed_by(old(self)@[other]).countable(),
            r is Ok ==> final(self)@ == appended(old(self)@, buffer, other),
            r matches Err(e) ==> final(self)@ == old(self)@ && e == (if old(self)@.contains_key(
                buffer,
            ) && old(self)@.contains_key(other) {
                BufferError::CapacityExceeded
            } else {
                BufferError::InvalidHandle
            }),
            final(self).allocated() == old(self).allocated(),
    {
        proof {
            use_type_invariant(&*self);
        }
        let mut slots: Vec<Option<RawBuffer>> = Vec::new();
        core::mem::swap(&mut self.slots, &mut slots);
        let r = append_in(&mut slots, buffer, other);
        self.slots = slots;
        r
    }

    /// Deletes a buffer. Its reference is dead from then on.
    pub fn delete_buffer(&mut self, buffer: usize) -> (r: Result<(), BufferError>)
        ensures
            r is Ok <==> old(self)@.contains_key(buffer),
            r is Ok ==> final(self)@ == deleted(old(self)@, buffer),
            r matches Err(e) ==> final(self)@ == old(self)@ && e == BufferError::InvalidHandle,
            final(self).allocated() == old(self).allocated(),
    {
        proof {
            use_type_invariant(&*self);
        }
        let mut slots: Vec<Option<RawBuffer>> = Vec::new();
        core::mem::swap(&mut self.slots, &mut slots);
        let r = delete_in(&mut slots, buffer);
        self.slots = slots;
        r
    }
}

} // verus!
