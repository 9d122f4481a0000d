use galaxy::overlay::{background, center_pixel, grid_line_offsets, image_size};

fn px(bytes: &[u8], w: u32, x: u32, y: u32) -> (u8, u8, u8) {
    let i = ((y * w + x) * 3) as usize;
    (bytes[i], bytes[i + 1], bytes[i + 2])
}

const BLACK: (u8, u8, u8) = (0, 0, 0);
const GRID: (u8, u8, u8) = (40, 40, 40);
const AXIS: (u8, u8, u8) = (0, 180, 0);

#[test]
fn image_size_scales_the_grid() {
    assert_eq!(image_size(101, 101, 6), (606, 606));
    assert_eq!(image_size(0, 3, 4), (0, 12));
}

#[test]
fn center_pixel_is_the_middle_of_the_origin_cell() {
    assert_eq!(center_pixel(-50, 6, 606), 303);
    assert_eq!(center_pixel(0, 6, 606), 3);
    assert_eq!(center_pixel(5, 6, 606), 303);
}

#[test]
fn grid_lines_step_through_the_region() {
    assert_eq!(grid_line_offsets(-50, 50, 10, 6), vec![0, 60, 120, 180, 240, 300, 360, 420, 480, 540, 600]);
    assert_eq!(grid_line_offsets(0, 4, 3, 2), vec![0, 6]);
    assert_eq!(grid_line_offsets(0, 0, 3, 2), vec![0]);
    assert_eq!(grid_line_offsets(1, 0, 3, 2), Vec::<u32>::new());
}

#[test]
fn plain_background_is_black() {
    let b = background(2, 2, -1, 0, 2, false, 1, true);
    assert_eq!(b, vec![0u8; 4 * 4 * 3]);
}

#[test]
fn grid_and_axes() {
    // region -2..=2 (5 cells), 2 pixels per cell: a 10x10 image,
    // lines every 2 cells at pixels 0, 4, 8; origin cell 2 -> pixel 5.
    let b = background(5, 5, -2, 2, 2, true, 2, true);
    assert_eq!(b.len(), 10 * 10 * 3);
    assert_eq!(px(&b, 10, 0, 1), GRID);
    assert_eq!(px(&b, 10, 8, 1), GRID);
    assert_eq!(px(&b, 10, 1, 8), GRID);
    assert_eq!(px(&b, 10, 1, 1), BLACK);
    assert_eq!(px(&b, 10, 9, 9), BLACK);
    assert_eq!(px(&b, 10, 5, 1), AXIS);
    assert_eq!(px(&b, 10, 4, 1), AXIS);
    assert_eq!(px(&b, 10, 1, 5), AXIS);
    assert_eq!(px(&b, 10, 1, 4), AXIS);
    assert_eq!(px(&b, 10, 6, 1), BLACK);
}

#[test]
fn grid_without_axes_and_clamped_last_line() {
    // region 0..=3 (4 cells), 1 pixel per cell, lines every 3 cells at 0 and 3.
    let b = background(4, 4, 0, 3, 1, true, 3, false);
    assert_eq!(px(&b, 4, 0, 1), GRID);
    assert_eq!(px(&b, 4, 3, 1), GRID);
    assert_eq!(px(&b, 4, 1, 3), GRID);
    assert_eq!(px(&b, 4, 1, 1), BLACK);
    assert_eq!(px(&b, 4, 2, 2), BLACK);
    // region 0..=4 at scale 1 in a 4 pixel image: the line at 4 clamps to 3
    let c = background(4, 4, 0, 4, 1, true, 4, false);
    assert_eq!(px(&c, 4, 3, 1), GRID);
    assert_eq!(px(&c, 4, 2, 1), BLACK);
}
