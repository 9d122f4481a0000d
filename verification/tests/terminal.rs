use galaxy::terminal::{count_grid, count_star, density_char, render_counts, tui_layout};

#[test]
fn layout_reserves_the_info_rows() {
    assert_eq!(tui_layout(80, 24), (80, 22));
    assert_eq!(tui_layout(5, 5), (10, 10));
    assert_eq!(tui_layout(200, 0), (200, 10));
    assert_eq!(tui_layout(9, 12), (10, 10));
}

#[test]
fn density_glyphs() {
    assert_eq!(density_char(0), ' ');
    assert_eq!(density_char(1), '.');
    assert_eq!(density_char(2), '.');
    assert_eq!(density_char(3), '*');
    assert_eq!(density_char(7), '*');
    assert_eq!(density_char(8), '@');
    assert_eq!(density_char(u32::MAX), '@');
}

#[test]
fn counts_saturate_and_ignore_outside_stars() {
    let mut b = count_grid(2, 3);
    count_star(&mut b, 3, 1, 0);
    count_star(&mut b, 3, 1, 0);
    count_star(&mut b, 3, -1, 0);
    count_star(&mut b, 3, 3, 0);
    count_star(&mut b, 3, 0, 2);
    assert_eq!(b, vec![vec![0, 2, 0], vec![0, 0, 0]]);
    b[1][2] = u32::MAX;
    count_star(&mut b, 3, 2, 1);
    assert_eq!(b[1][2], u32::MAX);
}

#[test]
fn render_counts_one_line_per_row() {
    let b = vec![vec![0, 1, 3], vec![8, 2, 0]];
    let text: String = render_counts(&b).into_iter().collect();
    assert_eq!(text, " .*\n@. \n");
    assert!(render_counts(&Vec::new()).is_empty());
}
