use render_buffer::{
    BufferError, DebugLine, DebugPoint, DebugTriangle, Engine, RenderBufferMut,
};

fn bits(x: f32, y: f32, z: f32) -> [u32; 3] {
    [x.to_bits(), y.to_bits(), z.to_bits()]
}

fn point(n: u32) -> DebugPoint {
    DebugPoint { pos: bits(n as f32, 0.5, -1.0), color: 0xff00_0000 | n }
}

fn line(n: u32) -> DebugLine {
    DebugLine {
        pos0: bits(n as f32, 0.0, 0.0),
        color0: n,
        pos1: bits(0.0, n as f32, 0.0),
        color1: n + 1,
    }
}

fn triangle(n: u32) -> DebugTriangle {
    DebugTriangle {
        pos0: bits(n as f32, 0.0, 0.0),
        color0: n,
        pos1: bits(0.0, n as f32, 0.0),
        color1: n + 1,
        pos2: bits(0.0, 0.0, n as f32),
        color2: n + 2,
    }
}

/// A buffer with the given numbers of records, adopted.
fn adopted(engine: &mut Engine, points: u32, lines: u32, triangles: u32) -> RenderBufferMut {
    let buffer = engine.create_buffer().unwrap();
    for n in 0..points {
        engine.add_point(buffer, &point(n)).unwrap();
    }
    for n in 0..lines {
        engine.add_line(buffer, &line(n)).unwrap();
    }
    for n in 0..triangles {
        engine.add_triangle(buffer, &triangle(n)).unwrap();
    }
    RenderBufferMut::from_ptr(buffer).unwrap()
}

fn counts(handle: &RenderBufferMut, engine: &Engine) -> (u32, u32, u32) {
    (
        handle.get_number_points(engine).unwrap(),
        handle.get_number_lines(engine).unwrap(),
        handle.get_number_triangles(engine).unwrap(),
    )
}

#[test]
fn adopting_null_is_refused() {
    assert_eq!(RenderBufferMut::from_ptr(0).err(), Some(BufferError::NullPointer));
}

#[test]
fn an_adopted_handle_knows_its_reference() {
    let handle = RenderBufferMut::from_ptr(5).unwrap();
    assert_eq!(handle.address(), Ok(5));
}

#[test]
fn a_handle_on_no_buffer_is_turned_away() {
    let mut engine = Engine::new();
    let mut handle = RenderBufferMut::from_ptr(5).unwrap();
    assert_eq!(handle.get_number_points(&engine), Err(BufferError::InvalidHandle));
    assert_eq!(handle.get_points(&engine), Err(BufferError::InvalidHandle));
    assert_eq!(handle.clear(&mut engine), Err(BufferError::InvalidHandle));
    assert_eq!(handle.release(&mut engine), Err(BufferError::InvalidHandle));
    assert_eq!(handle.address(), Err(BufferError::InvalidHandle));
}

#[test]
fn counts_follow_the_engine() {
    let mut engine = Engine::new();
    let handle = adopted(&mut engine, 1, 0, 0);
    assert_eq!(counts(&handle, &engine), (1, 0, 0));
    engine.add_point(handle.address().unwrap(), &point(9)).unwrap();
    engine.add_triangle(handle.address().unwrap(), &triangle(9)).unwrap();
    assert_eq!(counts(&handle, &engine), (2, 0, 1));
}

#[test]
fn accessors_copy_the_records_in_order() {
    let mut engine = Engine::new();
    let handle = adopted(&mut engine, 3, 2, 1);
    assert_eq!(handle.get_points(&engine), Ok(vec![point(0), point(1), point(2)]));
    assert_eq!(handle.get_lines(&engine), Ok(vec![line(0), line(1)]));
    assert_eq!(handle.get_triangles(&engine), Ok(vec![triangle(0)]));
}

#[test]
fn a_copy_does_not_follow_later_changes() {
    let mut engine = Engine::new();
    let mut handle = adopted(&mut engine, 2, 0, 0);
    let copy = handle.get_points(&engine).unwrap();
    handle.clear(&mut engine).unwrap();
    assert_eq!(copy, vec![point(0), point(1)]);
    assert_eq!(handle.get_points(&engine), Ok(vec![]));
}

#[test]
fn clear_leaves_all_counts_at_zero() {
    let mut engine = Engine::new();
    let mut handle = adopted(&mut engine, 4, 3, 2);
    assert_eq!(counts(&handle, &engine), (4, 3, 2));
    assert_eq!(handle.clear(&mut engine), Ok(()));
    assert_eq!(counts(&handle, &engine), (0, 0, 0));
    assert_eq!(handle.get_points(&engine), Ok(vec![]));
    assert_eq!(handle.get_lines(&engine), Ok(vec![]));
    assert_eq!(handle.get_triangles(&engine), Ok(vec![]));
}

#[test]
fn clear_twice_leaves_all_counts_at_zero_both_times() {
    let mut engine = Engine::new();
    let mut handle = adopted(&mut engine, 2, 2, 2);
    assert_eq!(handle.clear(&mut engine), Ok(()));
    assert_eq!(counts(&handle, &engine), (0, 0, 0));
    assert_eq!(handle.clear(&mut engine), Ok(()));
    assert_eq!(counts(&handle, &engine), (0, 0, 0));
}

#[test]
fn clear_spares_other_buffers() {
    let mut engine = Engine::new();
    let mut first = adopted(&mut engine, 2, 0, 0);
    let second = adopted(&mut engine, 1, 1, 1);
    first.clear(&mut engine).unwrap();
    assert_eq!(counts(&second, &engine), (1, 1, 1));
}

#[test]
fn append_adds_the_counts_and_spares_the_other() {
    let mut engine = Engine::new();
    let mut first = adopted(&mut engine, 3, 1, 2);
    let second = adopted(&mut engine, 2, 4, 1);
    let before = (
        second.get_points(&engine).unwrap(),
        second.get_lines(&engine).unwrap(),
        second.get_triangles(&engine).unwrap(),
    );
    assert_eq!(first.append(&second, &mut engine), Ok(()));
    assert_eq!(counts(&first, &engine), (5, 5, 3));
    assert_eq!(counts(&second, &engine), (2, 4, 1));
    assert_eq!(second.get_points(&engine).unwrap(), before.0);
    assert_eq!(second.get_lines(&engine).unwrap(), before.1);
    assert_eq!(second.get_triangles(&engine).unwrap(), before.2);
    assert_eq!(
        first.get_points(&engine),
        Ok(vec![point(0), point(1), point(2), point(0), point(1)])
    );
}

#[test]
fn append_into_empty_handle_gives_the_same_records() {
    // An empty handle A; a buffer with 2 points, 1 line and no triangle
    // adopted as B; `A.append(B)`.
    let mut engine = Engine::new();
    let mut a = adopted(&mut engine, 0, 0, 0);
    assert_eq!(counts(&a, &engine), (0, 0, 0));
    let b = adopted(&mut engine, 2, 1, 0);
    assert_eq!(a.append(&b, &mut engine), Ok(()));
    assert_eq!(a.get_number_points(&engine), Ok(2));
    assert_eq!(a.get_number_lines(&engine), Ok(1));
    assert_eq!(a.get_number_triangles(&engine), Ok(0));
    assert_eq!(a.get_points(&engine), b.get_points(&engine));
    assert_eq!(a.get_points(&engine), Ok(vec![point(0), point(1)]));
}

#[test]
fn append_round_trip_keeps_every_record() {
    let mut engine = Engine::new();
    let source = adopted(&mut engine, 5, 4, 3);
    let mut fresh = adopted(&mut engine, 0, 0, 0);
    assert_eq!(fresh.append(&source, &mut engine), Ok(()));
    assert_eq!(fresh.get_points(&engine), source.get_points(&engine));
    assert_eq!(fresh.get_lines(&engine), source.get_lines(&engine));
    assert_eq!(fresh.get_triangles(&engine), source.get_triangles(&engine));
    assert_eq!(
        fresh.get_triangles(&engine),
        Ok(vec![triangle(0), triangle(1), triangle(2)])
    );
    assert_eq!(fresh.get_lines(&engine), Ok(vec![line(0), line(1), line(2), line(3)]));
}

#[test]
fn append_of_an_empty_buffer_changes_nothing() {
    let mut engine = Engine::new();
    let mut first = adopted(&mut engine, 2, 1, 1);
    let empty = adopted(&mut engine, 0, 0, 0);
    assert_eq!(first.append(&empty, &mut engine), Ok(()));
    assert_eq!(counts(&first, &engine), (2, 1, 1));
}

#[test]
fn append_from_a_released_handle_is_refused() {
    let mut engine = Engine::new();
    let mut first = adopted(&mut engine, 1, 0, 0);
    let mut second = adopted(&mut engine, 1, 0, 0);
    second.release(&mut engine).unwrap();
    assert_eq!(first.append(&second, &mut engine), Err(BufferError::InvalidHandle));
    assert_eq!(counts(&first, &engine), (1, 0, 0));
}

#[test]
fn append_to_a_released_handle_is_refused() {
    let mut engine = Engine::new();
    let mut first = adopted(&mut engine, 1, 0, 0);
    let second = adopted(&mut engine, 1, 0, 0);
    first.release(&mut engine).unwrap();
    assert_eq!(first.append(&second, &mut engine), Err(BufferError::InvalidHandle));
    assert_eq!(counts(&second, &engine), (1, 0, 0));
}

#[test]
fn release_deletes_the_buffer() {
    let mut engine = Engine::new();
    let mut handle = adopted(&mut engine, 1, 1, 1);
    let buffer = handle.address().unwrap();
    assert!(engine.contains(buffer));
    assert_eq!(handle.release(&mut engine), Ok(()));
    assert!(!engine.contains(buffer));
}

#[test]
fn release_spares_other_buffers() {
    let mut engine = Engine::new();
    let mut first = adopted(&mut engine, 1, 0, 0);
    let second = adopted(&mut engine, 0, 2, 0);
    first.release(&mut engine).unwrap();
    assert_eq!(counts(&second, &engine), (0, 2, 0));
}

#[test]
fn a_released_handle_is_turned_away_by_every_accessor() {
    let mut engine = Engine::new();
    let mut handle = adopted(&mut engine, 2, 2, 2);
    let other = adopted(&mut engine, 1, 0, 0);
    assert_eq!(handle.release(&mut engine), Ok(()));
    assert_eq!(handle.address(), Err(BufferError::InvalidHandle));
    assert_eq!(handle.get_number_points(&engine), Err(BufferError::InvalidHandle));
    assert_eq!(handle.get_number_lines(&engine), Err(BufferError::InvalidHandle));
    assert_eq!(handle.get_number_triangles(&engine), Err(BufferError::InvalidHandle));
    assert_eq!(handle.get_points(&engine), Err(BufferError::InvalidHandle));
    assert_eq!(handle.get_lines(&engine), Err(BufferError::InvalidHandle));
    assert_eq!(handle.get_triangles(&engine), Err(BufferError::InvalidHandle));
    assert_eq!(handle.clear(&mut engine), Err(BufferError::InvalidHandle));
    assert_eq!(handle.append(&other, &mut engine), Err(BufferError::InvalidHandle));
    assert_eq!(counts(&other, &engine), (1, 0, 0));
}

#[test]
fn a_second_release_deletes_nothing() {
    let mut engine = Engine::new();
    let mut handle = adopted(&mut engine, 1, 0, 0);
    let bystander = adopted(&mut engine, 1, 0, 0);
    assert_eq!(handle.release(&mut engine), Ok(()));
    assert_eq!(handle.release(&mut engine), Err(BufferError::InvalidHandle));
    assert_eq!(counts(&bystander, &engine), (1, 0, 0));
}

#[test]
fn a_released_reference_is_not_given_out_again() {
    let mut engine = Engine::new();
    let mut handle = adopted(&mut engine, 1, 0, 0);
    let buffer = handle.address().unwrap();
    handle.release(&mut engine).unwrap();
    let next = engine.create_buffer().unwrap();
    assert_ne!(next, buffer);
    let stale = RenderBufferMut::from_ptr(buffer).unwrap();
    assert_eq!(stale.get_number_points(&engine), Err(BufferError::InvalidHandle));
}

#[test]
fn disown_empties_the_handle_and_keeps_the_buffer() {
    let mut engine = Engine::new();
    let mut handle = adopted(&mut engine, 1, 0, 0);
    let buffer = handle.address().unwrap();
    assert_eq!(handle.disown(), Ok(buffer));
    assert_eq!(handle.disown(), Err(BufferError::InvalidHandle));
    assert_eq!(handle.address(), Err(BufferError::InvalidHandle));
    assert!(engine.contains(buffer));
    assert_eq!(handle.release(&mut engine), Err(BufferError::InvalidHandle));
    assert!(engine.contains(buffer));
}

#[test]
fn two_handles_on_one_buffer_append_it_to_itself() {
    let mut engine = Engine::new();
    let mut first = adopted(&mut engine, 1, 1, 0);
    let second = RenderBufferMut::from_ptr(first.address().unwrap()).unwrap();
    assert_eq!(first.append(&second, &mut engine), Ok(()));
    assert_eq!(counts(&first, &engine), (2, 2, 0));
    assert_eq!(counts(&second, &engine), (2, 2, 0));
}

#[test]
fn append_of_one_point_to_one_point_counts_two() {
    let mut engine = Engine::new();
    let mut first = adopted(&mut engine, 1, 0, 0);
    let second = adopted(&mut engine, 1, 0, 0);
    assert_eq!(first.append(&second, &mut engine), Ok(()));
    assert_eq!(counts(&first, &engine), (2, 0, 0));
    assert_eq!(first.get_points(&engine), Ok(vec![point(0), point(0)]));
    assert_eq!(counts(&second, &engine), (1, 0, 0));
}

#[test]
fn append_keeps_own_records_first_and_kinds_apart() {
    let mut engine = Engine::new();
    let own = engine.create_buffer().unwrap();
    let other = engine.create_buffer().unwrap();
    engine.add_point(own, &point(10)).unwrap();
    engine.add_line(own, &line(11)).unwrap();
    engine.add_triangle(own, &triangle(12)).unwrap();
    engine.add_point(other, &point(20)).unwrap();
    engine.add_point(other, &point(21)).unwrap();
    engine.add_line(other, &line(22)).unwrap();
    engine.add_triangle(other, &triangle(23)).unwrap();
    let mut first = RenderBufferMut::from_ptr(own).unwrap();
    let second = RenderBufferMut::from_ptr(other).unwrap();
    assert_eq!(first.append(&second, &mut engine), Ok(()));
    assert_eq!(first.get_points(&engine), Ok(vec![point(10), point(20), point(21)]));
    assert_eq!(first.get_lines(&engine), Ok(vec![line(11), line(22)]));
    assert_eq!(first.get_triangles(&engine), Ok(vec![triangle(12), triangle(23)]));
}
