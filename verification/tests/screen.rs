use chip8::screen::{Buffer, Point, PIXEL_ON};

fn lit_cells(buffer: &Buffer) -> Vec<(usize, usize)> {
    let mut cells = Vec::new();
    for y in 0..buffer.height() {
        for x in 0..buffer.width() {
            if buffer.pixel(x, y) {
                cells.push((x, y));
            }
        }
    }
    cells
}

#[test]
fn point_new_keeps_its_coordinates() {
    let point = Point::new(3, 7);
    assert_eq!(point.x, 3);
    assert_eq!(point.y, 7);
}

#[test]
fn buffer_new_without_pixels_is_dark() {
    let buffer = Buffer::new(4, 3, None);
    assert_eq!(buffer.width(), 4);
    assert_eq!(buffer.height(), 3);
    assert!(buffer.is_dirty());
    assert_eq!(buffer.pixels(), &vec![0u32; 12]);
    assert_eq!(lit_cells(&buffer), vec![]);
}

#[test]
fn buffer_new_keeps_given_pixels() {
    let on = PIXEL_ON;
    let buffer = Buffer::new(3, 2, Some(vec![on, 0, 0, 0, 0, on]));
    assert_eq!(buffer.width(), 3);
    assert_eq!(buffer.height(), 2);
    assert_eq!(buffer.pixels(), &vec![on, 0, 0, 0, 0, on]);
    assert_eq!(lit_cells(&buffer), vec![(0, 0), (2, 1)]);
}

#[test]
fn buffer_new_of_no_cells() {
    let buffer = Buffer::new(0, 5, None);
    assert_eq!(buffer.width(), 0);
    assert_eq!(buffer.height(), 5);
    assert_eq!(buffer.pixels().len(), 0);
}

#[test]
fn pixel_on_is_255() {
    assert_eq!(PIXEL_ON, 255);
}

#[test]
fn buffer_clear_turns_everything_off_and_keeps_the_size() {
    let on = PIXEL_ON;
    let mut buffer = Buffer::new(2, 2, Some(vec![on, on, 0, on]));
    buffer.set_dirty(false);
    buffer.clear();
    assert_eq!(buffer.pixels(), &vec![0u32; 4]);
    assert_eq!(buffer.width(), 2);
    assert_eq!(buffer.height(), 2);
    assert!(!buffer.is_dirty());
}

#[test]
fn set_dirty_changes_only_the_flag() {
    let on = PIXEL_ON;
    let mut buffer = Buffer::new(2, 1, Some(vec![on, 0]));
    buffer.set_dirty(false);
    assert!(!buffer.is_dirty());
    assert_eq!(buffer.pixels(), &vec![on, 0]);
    buffer.set_dirty(true);
    assert!(buffer.is_dirty());
}

#[test]
fn blit_combines_by_exclusive_or() {
    let on = PIXEL_ON;
    let mut target = Buffer::new(4, 2, Some(vec![on, on, 0, 0, 0, 0, 0, 0]));
    let source = Buffer::new(2, 2, Some(vec![on, on, 0, on]));
    target.set_dirty(false);
    let collision = target.blit(&source, Point::new(1, 0));
    // (1,0) was lit and is hit: off. (2,0) was dark: on. (2,1) was dark: on.
    assert!(collision);
    assert_eq!(target.pixels(), &vec![on, 0, on, 0, 0, 0, on, 0]);
    assert!(target.is_dirty());
}

#[test]
fn blit_on_dark_cells_does_not_collide() {
    let on = PIXEL_ON;
    let mut target = Buffer::new(4, 2, Some(vec![on, 0, 0, 0, 0, 0, 0, 0]));
    let source = Buffer::new(2, 1, Some(vec![on, on]));
    assert!(!target.blit(&source, Point::new(1, 0)));
    assert_eq!(target.pixels(), &vec![on, on, on, 0, 0, 0, 0, 0]);
}

#[test]
fn blit_of_dark_pixels_changes_nothing() {
    let on = PIXEL_ON;
    let mut target = Buffer::new(2, 2, Some(vec![on, on, on, on]));
    let source = Buffer::new(2, 2, None);
    assert!(!target.blit(&source, Point::new(0, 0)));
    assert_eq!(target.pixels(), &vec![on, on, on, on]);
}

#[test]
fn blit_twice_restores_the_target() {
    let on = PIXEL_ON;
    let before = vec![0, on, 0, 0, on, 0, 0, 0, 0, 0, 0, on];
    let mut target = Buffer::new(4, 3, Some(before.clone()));
    let source = Buffer::new(3, 2, Some(vec![on, 0, on, on, on, 0]));
    target.blit(&source, Point::new(2, 2));
    assert_ne!(target.pixels(), &before);
    target.blit(&source, Point::new(2, 2));
    assert_eq!(target.pixels(), &before);
}

#[test]
fn blit_wraps_at_the_right_and_bottom_edges() {
    let on = PIXEL_ON;
    let mut target = Buffer::new(4, 3, None);
    let source = Buffer::new(2, 2, Some(vec![on, on, on, on]));
    assert!(!target.blit(&source, Point::new(3, 2)));
    assert_eq!(lit_cells(&target), vec![(0, 0), (3, 0), (0, 2), (3, 2)]);
}

#[test]
fn blit_reduces_the_offset_into_the_target() {
    let on = PIXEL_ON;
    let mut target = Buffer::new(4, 3, None);
    let source = Buffer::new(1, 1, Some(vec![on]));
    target.blit(&source, Point::new(4 * 5 + 1, 3 * 7 + 2));
    assert_eq!(lit_cells(&target), vec![(1, 2)]);
}

#[test]
fn blit_of_a_source_as_large_as_the_target() {
    let on = PIXEL_ON;
    let mut target = Buffer::new(2, 2, Some(vec![on, 0, 0, 0]));
    let source = Buffer::new(2, 2, Some(vec![on, 0, 0, on]));
    // Placed at (1, 1): source (0,0) lands on (1,1), source (1,1) on (0,0).
    assert!(target.blit(&source, Point::new(1, 1)));
    assert_eq!(target.pixels(), &vec![0, 0, 0, on]);
}

#[test]
fn blit_onto_a_target_without_cells() {
    let mut target = Buffer::new(0, 0, None);
    let source = Buffer::new(0, 0, None);
    assert!(!target.blit(&source, Point::new(5, 5)));
    assert_eq!(target.pixels().len(), 0);
    assert!(target.is_dirty());
}

#[test]
fn buffer_clone_is_equal() {
    let on = PIXEL_ON;
    let buffer = Buffer::new(2, 1, Some(vec![0, on]));
    let copy = buffer.clone();
    assert_eq!(copy.pixels(), buffer.pixels());
    assert_eq!(copy.width(), 2);
    assert_eq!(copy.height(), 1);
}

#[test]
fn blit_cuts_a_source_that_is_larger_than_the_target() {
    let on = PIXEL_ON;
    let source = Buffer::new(3, 3, Some(vec![on, 0, on, 0, on, 0, on, 0, on]));
    let mut target = Buffer::new(2, 2, None);
    assert!(!target.blit(&source, Point::new(0, 0)));
    assert_eq!(target.pixels(), &vec![on, 0, 0, on]);
    // At (1, 1) the source's pixel (0, 0) lands on (1, 1), its pixel (1, 1) on (0, 0).
    let mut target = Buffer::new(2, 2, Some(vec![on, 0, 0, 0]));
    assert!(target.blit(&source, Point::new(1, 1)));
    assert_eq!(target.pixels(), &vec![0, 0, 0, on]);
    let wide = Buffer::new(4, 1, Some(vec![on, on, on, on]));
    let mut narrow = Buffer::new(2, 3, None);
    assert!(!narrow.blit(&wide, Point::new(1, 2)));
    assert_eq!(narrow.pixels(), &vec![0, 0, 0, 0, on, on]);
}
