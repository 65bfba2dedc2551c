//! Engine arrays as records.
//!
//! The engine hands over its arrays as raw memory: runs of 32-bit words,
//! record after record, each record's fields in the order of its
//! declaration. Everything that reads such memory as records, or lays
//! records out as such memory, is here.

use crate::error::BufferError;
use crate::records::{
    DebugLine, DebugPoint, DebugTriangle, LINE_WORDS, POINT_WORDS, TRIANGLE_WORDS,
};
use vstd::prelude::*;

verus! {

/// The three coordinates that start at word `at`.
pub open spec fn position_at(words: Seq<u32>, at: int) -> [u32; 3] {
    [words[at], words[at + 1], words[at + 2]]
}

/// The `i`-th point of an array of points.
pub open spec fn point_at(words: Seq<u32>, i: int) -> DebugPoint {
    DebugPoint { pos: position_at(words, 4 * i), color: words[4 * i + 3] }
}

/// The `i`-th line of an array of lines.
pub open spec fn line_at(words: Seq<u32>, i: int) -> DebugLine {
    DebugLine {
        pos0: position_at(words, 8 * i),
        color0: words[8 * i + 3],
        pos1: position_at(words, 8 * i + 4),
        color1: words[8 * i + 7],
    }
}

/// The `i`-th triangle of an array of triangles.
pub open spec fn triangle_at(words: Seq<u32>, i: int) -> DebugTriangle {
    DebugTriangle {
        pos0: position_at(words, 12 * i),
        color0: words[12 * i + 3],
        pos1: position_at(words, 12 * i + 4),
        color1: words[12 * i + 7],
        pos2: position_at(words, 12 * i + 8),
        color2: words[12 * i + 11],
    }
}

/// The points that an array holds: as many as fit whole.
pub open spec fn points_from_words(words: Seq<u32>) -> Seq<DebugPoint> {
    Seq::new((words.len() / 4) as nat, |i: int| point_at(words, i))
}

/// The lines that an array holds: as many as fit whole.
pub open spec fn lines_from_words(words: Seq<u32>) -> Seq<DebugLine> {
    Seq::new((words.len() / 8) as nat, |i: int| line_at(words, i))
}

/// The triangles that an array holds: as many as fit whole.
pub open spec fn triangles_from_words(words: Seq<u32>) -> Seq<DebugTriangle> {
    Seq::new((words.len() / 12) as nat, |i: int| triangle_at(words, i))
}

/// The words of one point.
pub open spec fn point_to_words(point: DebugPoint) -> Seq<u32> {
    seq![point.pos[0], point.pos[1], point.pos[2], point.color]
}

/// The words of one line.
pub open spec fn line_to_words(line: DebugLine) -> Seq<u32> {
    seq![
        line.pos0[0],
        line.pos0[1],
        line.pos0[2],
        line.color0,
        line.pos1[0],
        line.pos1[1],
        line.pos1[2],
        line.color1,
    ]
}

/// The words of one triangle.
pub open spec fn triangle_to_words(triangle: DebugTriangle) -> Seq<u32> {
    seq![
        triangle.pos0[0],
        triangle.pos0[1],
        triangle.pos0[2],
        triangle.color0,
        triangle.pos1[0],
        triangle.pos1[1],
        triangle.pos1[2],
        triangle.color1,
        triangle.pos2[0],
        triangle.pos2[1],
        triangle.pos2[2],
        triangle.color2,
    ]
}

/// Three coordinates read one by one are the position they were read from.
proof fn lemma_position_rebuilt(pos: [u32; 3])
    ensures
        [pos[0], pos[1], pos[2]] == pos,
{
    assert([pos[0], pos[1], pos[2]] =~= pos);
}

/// A point laid out as words and read back is the same point.
pub proof fn lemma_point_round_trip(point: DebugPoint)
    ensures
        point_to_words(point).len() == 4,
        points_from_words(point_to_words(point)) == seq![point],
{
    let words = point_to_words(point);
    lemma_position_rebuilt(point.pos);
    assert(point_at(words, 0) == point);
    assert(points_from_words(words) =~= seq![point]);
}

/// A line laid out as words and read back is the same line.
pub proof fn lemma_line_round_trip(line: DebugLine)
    ensures
        line_to_words(line).len() == 8,
        lines_from_words(line_to_words(line)) == seq![line],
{
    let words = line_to_words(line);
    lemma_position_rebuilt(line.pos0);
    lemma_position_rebuilt(line.pos1);
    assert(line_at(words, 0) == line);
    assert(lines_from_words(words) =~= seq![line]);
}

/// A triangle laid out as words and read back is the same triangle.
pub proof fn lemma_triangle_round_trip(triangle: DebugTriangle)
    ensures
        triangle_to_words(triangle).len() == 12,
        triangles_from_words(triangle_to_words(triangle)) == seq![triangle],
{
    let words = triangle_to_words(triangle);
    lemma_position_rebuilt(triangle.pos0);
    lemma_position_rebuilt(triangle.pos1);
    lemma_position_rebuilt(triangle.pos2);
    assert(triangle_at(words, 0) == triangle);
    assert(triangles_from_words(words) =~= seq![triangle]);
}

/// Two arrays of points laid end to end hold the points of the first
/// followed by the points of the second.
pub proof fn lemma_points_joined(first: Seq<u32>, second: Seq<u32>)
    requires
        first.len() % 4 == 0,
    ensures
        points_from_words(first + second) == points_from_words(first) + points_from_words(second),
{
    let joined = first + second;
    let n = first.len() as int / 4;
    assert forall|i: int| 0 <= i < joined.len() as int / 4 implies #[trigger] point_at(joined, i)
        == (points_from_words(first) + points_from_words(second))[i] by {
        if i < n {
            assert(point_at(joined, i) == point_at(first, i));
        } else {
            assert(joined[4 * i] == second[4 * (i - n)]);
            assert(joined[4 * i + 1] == second[4 * (i - n) + 1]);
            assert(joined[4 * i + 2] == second[4 * (i - n) + 2]);
            assert(joined[4 * i + 3] == second[4 * (i - n) + 3]);
            assert(point_at(joined, i) == point_at(second, i - n));
        }
    }
    assert(points_from_words(joined) =~= points_from_words(first) + points_from_words(second));
}

/// Two arrays of lines laid end to end hold the lines of the first followed
/// by the lines of the second.
pub proof fn lemma_lines_joined(first: Seq<u32>, second: Seq<u32>)
    requires
        first.len() % 8 == 0,
    ensures
        lines_from_words(first + second) == lines_from_words(first) + lines_from_words(second),
{
    let joined = first + second;
    let n = first.len() as int / 8;
    assert forall|i: int| 0 <= i < joined.len() as int / 8 implies #[trigger] line_at(joined, i)
        == (lines_from_words(first) + lines_from_words(second))[i] by {
        if i < n {
            assert(line_at(joined, i) == line_at(first, i));
        } else {
            let j = i - n;
            assert(position_at(joined, 8 * i) == position_at(second, 8 * j));
            assert(position_at(joined, 8 * i + 4) == position_at(second, 8 * j + 4));
            assert(joined[8 * i + 3] == second[8 * j + 3]);
            assert(joined[8 * i + 7] == second[8 * j + 7]);
            assert(line_at(joined, i) == line_at(second, j));
        }
    }
    assert(lines_from_words(joined) =~= lines_from_words(first) + lines_from_words(second));
}

/// Two arrays of triangles laid end to end hold the triangles of the first
/// followed by the triangles of the second.
pub proof fn lemma_triangles_joined(first: Seq<u32>, second: Seq<u32>)
    requires
        first.len() % 12 == 0,
    ensures
        triangles_from_words(first + second) == triangles_from_words(first) + triangles_from_words(
            second,
        ),
{
    let joined = first + second;
    let n = first.len() as int / 12;
    assert forall|i: int|
        0 <= i < joined.len() as int / 12 implies #[trigger] triangle_at(joined, i) == (
    triangles_from_words(first) + triangles_from_words(second))[i] by {
        if i < n {
            assert(triangle_at(joined, i) == triangle_at(first, i));
        } else {
            let j = i - n;
            assert(position_at(joined, 12 * i) == position_at(second, 12 * j));
            assert(position_at(joined, 12 * i + 4) == position_at(second, 12 * j + 4));
            assert(position_at(joined, 12 * i + 8) == position_at(second, 12 * j + 8));
            assert(joined[12 * i + 3] == second[12 * j + 3]);
            assert(joined[12 * i + 7] == second[12 * j + 7]);
            assert(joined[12 * i + 11] == second[12 * j + 11]);
            assert(triangle_at(joined, i) == triangle_at(second, j));
        }
    }
    assert(triangles_from_words(joined) =~= triangles_from_words(first) + triangles_from_words(
        second,
    ));
}

/// The number of words in an engine array of `count` records of
/// `record_words` words each, where the machine can address that many.
pub fn array_len(count: u32, record_words: usize) -> (len: Option<usize>)
    ensures
        len is Some <==> count * record_words <= usize::MAX,
        len matches Some(words) ==> words == count * record_words,
{
    (count as usize).checked_mul(record_words)
}

/// Copies `count` points out of an engine array.
///
/// The count is the one the engine reported just before it handed the array
/// over. The result has room for exactly that many records and is filled
/// from the array in order. An array of any other length is refused.
pub fn copy_points(count: u32, words: &[u32]) -> (r: Result<Vec<DebugPoint>, BufferError>)
    ensures
        r is Ok <==> words@.len() == POINT_WORDS * count,
        r matches Ok(points) ==> points@ == points_from_words(words@),
        r matches Err(e) ==> e == BufferError::SizeMismatch,
{
    let n = count as usize;
    if words.len() % POINT_WORDS != 0 || words.len() / POINT_WORDS != n {
        return Err(BufferError::SizeMismatch);
    }
    let mut points: Vec<DebugPoint> = Vec::with_capacity(n);
    let mut i: usize = 0;
    while i < n
        invariant
            i <= n,
            words@.len() == 4 * n <= usize::MAX,
            points@ == points_from_words(words@).subrange(0, i as int),
        decreases n - i,
    {
        let at = POINT_WORDS * i;
        let point = DebugPoint {
            pos: [words[at], words[at + 1], words[at + 2]],
            color: words[at + 3],
        };
        assert(point == point_at(words@, i as int));
        points.push(point);
        assert(points@ =~= points_from_words(words@).subrange(0, i + 1));
        i += 1;
    }
    assert(points@ =~= points_from_words(words@));
    Ok(points)
}

/// Copies `count` lines out of an engine array, as `copy_points` does points.
pub fn copy_lines(count: u32, words: &[u32]) -> (r: Result<Vec<DebugLine>, BufferError>)
    ensures
        r is Ok <==> words@.len() == LINE_WORDS * count,
        r matches Ok(lines) ==> lines@ == lines_from_words(words@),
        r matches Err(e) ==> e == BufferError::SizeMismatch,
{
    let n = count as usize;
    if words.len() % LINE_WORDS != 0 || words.len() / LINE_WORDS != n {
        return Err(BufferError::SizeMismatch);
    }
    let mut lines: Vec<DebugLine> = Vec::with_capacity(n);
    let mut i: usize = 0;
    while i < n
        invariant
            i <= n,
            words@.len() == 8 * n <= usize::MAX,
            lines@ == lines_from_words(words@).subrange(0, i as int),
        decreases n - i,
    {
        let at = LINE_WORDS * i;
        let line = DebugLine {
            pos0: [words[at], words[at + 1], words[at + 2]],
            color0: words[at + 3],
            pos1: [words[at + 4], words[at + 5], words[at + 6]],
            color1: words[at + 7],
        };
        assert(line == line_at(words@, i as int));
        lines.push(line);
        assert(lines@ =~= lines_from_words(words@).subrange(0, i + 1));
        i += 1;
    }
    assert(lines@ =~= lines_from_words(words@));
    Ok(lines)
}

/// Copies `count` triangles out of an engine array, as `copy_points` does
/// points.
pub fn copy_triangles(count: u32, words: &[u32]) -> (r: Result<Vec<DebugTriangle>, BufferError>)
    ensures
        r is Ok <==> words@.len() == TRIANGLE_WORDS * count,
        r matches Ok(triangles) ==> triangles@ == triangles_from_words(words@),
        r matches Err(e) ==> e == BufferError::SizeMismatch,
{
    let n = count as usize;
    if words.len() % TRIANGLE_WORDS != 0 || words.len() / TRIANGLE_WORDS != n {
        return Err(BufferError::SizeMismatch);
    }
    let mut triangles: Vec<DebugTriangle> = Vec::with_capacity(n);
    let mut i: usize = 0;
    while i < n
        invariant
            i <= n,
            words@.len() == 12 * n <= usize::MAX,
            triangles@ == triangles_from_words(words@).subrange(0, i as int),
        decreases n - i,
    {
        let at = TRIANGLE_WORDS * i;
        let triangle = DebugTriangle {
            pos0: [words[at], words[at + 1], words[at + 2]],
            color0: words[at + 3],
            pos1: [words[at + 4], words[at + 5], words[at + 6]],
            color1: words[at + 7],
            pos2: [words[at + 8], words[at + 9], words[at + 10]],
            color2: words[at + 11],
        };
        assert(triangle == triangle_at(words@, i as int));
        triangles.push(triangle);
        assert(triangles@ =~= triangles_from_words(words@).subrange(0, i + 1));
        i += 1;
    }
    assert(triangles@ =~= triangles_from_words(words@));
    Ok(triangles)
}

/// Lays a point out behind the words already in `out`.
pub fn write_point(point: &DebugPoint, out: &mut Vec<u32>)
    ensures
        final(out)@ == old(out)@ + point_to_words(*point),
{
    out.push(point.pos[0]);
    out.push(point.pos[1]);
    out.push(point.pos[2]);
    out.push(point.color);
    assert(out@ =~= old(out)@ + point_to_words(*point));
}

/// Lays a line out behind the words already in `out`.
pub fn write_line(line: &DebugLine, out: &mut Vec<u32>)
    ensures
        final(out)@ == old(out)@ + line_to_words(*line),
{
    out.push(line.pos0[0]);
    out.push(line.pos0[1]);
    out.push(line.pos0[2]);
    out.push(line.color0);
    out.push(line.pos1[0]);
    out.push(line.pos1[1]);
    out.push(line.pos1[2]);
    out.push(line.color1);
    assert(out@ =~= old(out)@ + line_to_words(*line));
}

/// Lays a triangle out behind the words already in `out`.
pub fn write_triangle(triangle: &DebugTriangle, out: &mut Vec<u32>)
    ensures
        final(out)@ == old(out)@ + triangle_to_words(*triangle),
{
    out.push(triangle.pos0[0]);
    out.push(triangle.pos0[1]);
    out.push(triangle.pos0[2]);
    out.push(triangle.color0);
    out.push(triangle.pos1[0]);
    out.push(triangle.pos1[1]);
    out.push(triangle.pos1[2]);
    out.push(triangle.color1);
    out.push(triangle.pos2[0]);
    out.push(triangle.pos2[1]);
    out.push(triangle.pos2[2]);
    out.push(triangle.color2);
    assert(out@ =~= old(out)@ + triangle_to_words(*triangle));
}

} // verus!
