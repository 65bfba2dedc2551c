use render_buffer::{
    array_len, copy_lines, copy_points, copy_triangles, write_line, write_point, write_triangle,
    BufferError, DebugLine, DebugPoint, DebugTriangle, LINE_WORDS, POINT_WORDS, TRIANGLE_WORDS,
};

fn bits(x: f32, y: f32, z: f32) -> [u32; 3] {
    [x.to_bits(), y.to_bits(), z.to_bits()]
}

#[test]
fn copy_points_reads_four_words_per_point() {
    let words = [1, 2, 3, 4, 5, 6, 7, 8];
    let points = copy_points(2, &words).unwrap();
    assert_eq!(
        points,
        vec![
            DebugPoint { pos: [1, 2, 3], color: 4 },
            DebugPoint { pos: [5, 6, 7], color: 8 },
        ]
    );
}

#[test]
fn copy_lines_reads_eight_words_per_line() {
    let words = [1, 2, 3, 4, 5, 6, 7, 8, 9, 10, 11, 12, 13, 14, 15, 16];
    let lines = copy_lines(2, &words).unwrap();
    assert_eq!(
        lines,
        vec![
            DebugLine { pos0: [1, 2, 3], color0: 4, pos1: [5, 6, 7], color1: 8 },
            DebugLine { pos0: [9, 10, 11], color0: 12, pos1: [13, 14, 15], color1: 16 },
        ]
    );
}

#[test]
fn copy_triangles_reads_twelve_words_per_triangle() {
    let words = [1, 2, 3, 4, 5, 6, 7, 8, 9, 10, 11, 12];
    let triangles = copy_triangles(1, &words).unwrap();
    assert_eq!(
        triangles,
        vec![DebugTriangle {
            pos0: [1, 2, 3],
            color0: 4,
            pos1: [5, 6, 7],
            color1: 8,
            pos2: [9, 10, 11],
            color2: 12,
        }]
    );
}

#[test]
fn copy_of_nothing_is_empty() {
    assert_eq!(copy_points(0, &[]), Ok(vec![]));
    assert_eq!(copy_lines(0, &[]), Ok(vec![]));
    assert_eq!(copy_triangles(0, &[]), Ok(vec![]));
}

#[test]
fn copy_points_refuses_an_array_shorter_than_the_count() {
    assert_eq!(copy_points(2, &[1, 2, 3, 4]), Err(BufferError::SizeMismatch));
}

#[test]
fn copy_points_refuses_an_array_longer_than_the_count() {
    assert_eq!(copy_points(1, &[1, 2, 3, 4, 5, 6, 7, 8]), Err(BufferError::SizeMismatch));
}

#[test]
fn copy_points_refuses_a_broken_record() {
    assert_eq!(copy_points(1, &[1, 2, 3]), Err(BufferError::SizeMismatch));
    assert_eq!(copy_points(1, &[1, 2, 3, 4, 5]), Err(BufferError::SizeMismatch));
}

#[test]
fn copy_lines_refuses_a_wrong_length() {
    assert_eq!(copy_lines(1, &[0; 4]), Err(BufferError::SizeMismatch));
    assert_eq!(copy_lines(0, &[0; 8]), Err(BufferError::SizeMismatch));
}

#[test]
fn copy_triangles_refuses_a_wrong_length() {
    assert_eq!(copy_triangles(1, &[0; 8]), Err(BufferError::SizeMismatch));
    assert_eq!(copy_triangles(2, &[0; 12]), Err(BufferError::SizeMismatch));
}

#[test]
fn write_point_lays_out_position_then_color() {
    let mut out = vec![9];
    write_point(&DebugPoint { pos: [1, 2, 3], color: 4 }, &mut out);
    assert_eq!(out, vec![9, 1, 2, 3, 4]);
}

#[test]
fn write_line_lays_out_both_ends() {
    let mut out = Vec::new();
    write_line(&DebugLine { pos0: [1, 2, 3], color0: 4, pos1: [5, 6, 7], color1: 8 }, &mut out);
    assert_eq!(out, vec![1, 2, 3, 4, 5, 6, 7, 8]);
}

#[test]
fn write_triangle_lays_out_three_corners() {
    let mut out = Vec::new();
    let triangle = DebugTriangle {
        pos0: [1, 2, 3],
        color0: 4,
        pos1: [5, 6, 7],
        color1: 8,
        pos2: [9, 10, 11],
        color2: 12,
    };
    write_triangle(&triangle, &mut out);
    assert_eq!(out, vec![1, 2, 3, 4, 5, 6, 7, 8, 9, 10, 11, 12]);
}

#[test]
fn written_points_are_read_back() {
    let points = vec![
        DebugPoint { pos: bits(1.0, -2.5, 3.25), color: 0xff00_00ff },
        DebugPoint { pos: bits(0.0, 1.0e-3, -7.0), color: 0x00ff_00ff },
        DebugPoint { pos: bits(f32::MAX, f32::MIN, f32::INFINITY), color: 0 },
    ];
    let mut words = Vec::new();
    for point in &points {
        write_point(point, &mut words);
    }
    assert_eq!(words.len(), 12);
    assert_eq!(copy_points(3, &words), Ok(points));
}

#[test]
fn written_lines_are_read_back() {
    let lines = vec![
        DebugLine {
            pos0: bits(0.0, 0.0, 0.0),
            color0: 1,
            pos1: bits(1.0, 1.0, 1.0),
            color1: 2,
        },
        DebugLine {
            pos0: bits(-1.0, 2.0, -3.0),
            color0: 3,
            pos1: bits(4.0, -5.0, 6.0),
            color1: 4,
        },
    ];
    let mut words = Vec::new();
    for line in &lines {
        write_line(line, &mut words);
    }
    assert_eq!(copy_lines(2, &words), Ok(lines));
}

#[test]
fn written_triangles_are_read_back() {
    let triangles = vec![DebugTriangle {
        pos0: bits(0.0, 0.0, 0.0),
        color0: 0xffff_ffff,
        pos1: bits(1.0, 0.0, 0.0),
        color1: 0x8000_0000,
        pos2: bits(0.0, 1.0, 0.0),
        color2: 1,
    }];
    let mut words = Vec::new();
    for triangle in &triangles {
        write_triangle(triangle, &mut words);
    }
    assert_eq!(copy_triangles(1, &words), Ok(triangles));
}

#[test]
fn a_coordinate_keeps_its_float() {
    let words = [1.5f32.to_bits(), (-2.0f32).to_bits(), 0.25f32.to_bits(), 7];
    let points = copy_points(1, &words).unwrap();
    assert_eq!(f32::from_bits(points[0].pos[0]), 1.5);
    assert_eq!(f32::from_bits(points[0].pos[1]), -2.0);
    assert_eq!(f32::from_bits(points[0].pos[2]), 0.25);
    assert_eq!(points[0].color, 7);
}

#[test]
fn a_not_a_number_keeps_its_bits() {
    let words = [0x7fc0_0001, 0xffc0_0000, 0x7f80_0001, 0];
    let points = copy_points(1, &words).unwrap();
    assert_eq!(points[0].pos, [0x7fc0_0001, 0xffc0_0000, 0x7f80_0001]);
}

#[test]
fn array_len_is_count_times_record_words() {
    assert_eq!(array_len(3, POINT_WORDS), Some(12));
    assert_eq!(array_len(3, LINE_WORDS), Some(24));
    assert_eq!(array_len(3, TRIANGLE_WORDS), Some(36));
    assert_eq!(array_len(0, TRIANGLE_WORDS), Some(0));
}

#[test]
fn array_len_is_none_beyond_the_machine() {
    assert_eq!(array_len(2, usize::MAX), None);
    assert_eq!(array_len(1, usize::MAX), Some(usize::MAX));
}

#[test]
fn array_len_is_the_length_that_copy_accepts() {
    let words = vec![0u32; array_len(5, POINT_WORDS).unwrap()];
    assert_eq!(copy_points(5, &words).map(|points| points.len()), Ok(5));
}
