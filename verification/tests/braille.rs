use galaxy::braille::{
    braille_char, braille_dot, cell_mask, render_braille, splat_dot, splat_visible,
};

#[test]
fn dot_numbers_follow_the_braille_layout() {
    assert_eq!(braille_dot(0, 0), 1);
    assert_eq!(braille_dot(0, 1), 2);
    assert_eq!(braille_dot(0, 2), 3);
    assert_eq!(braille_dot(1, 0), 4);
    assert_eq!(braille_dot(1, 1), 5);
    assert_eq!(braille_dot(1, 2), 6);
    assert_eq!(braille_dot(0, 3), 7);
    assert_eq!(braille_dot(1, 3), 8);
    assert_eq!(braille_dot(2, 0), 0);
}

#[test]
fn cell_mask_sets_one_bit_per_lit_dot() {
    let mut high = vec![vec![0u8; 4]; 8];
    assert_eq!(cell_mask(&high, 0, 0), 0);
    high[0][0] = 1;
    assert_eq!(cell_mask(&high, 0, 0), 0b0000_0001);
    high[3][1] = 4;
    assert_eq!(cell_mask(&high, 0, 0), 0b1000_0001);
    high[2][1] = 2;
    assert_eq!(cell_mask(&high, 0, 0), 0b1010_0001);
    // the neighbouring cell is unaffected
    assert_eq!(cell_mask(&high, 1, 0), 0);
    high[5][2] = 1;
    assert_eq!(cell_mask(&high, 1, 1), 0b0000_0010);
}

#[test]
fn braille_characters() {
    assert_eq!(braille_char(0), ' ');
    assert_eq!(braille_char(1), '\u{2801}');
    assert_eq!(braille_char(0xff), '\u{28ff}');
}

#[test]
fn render_braille_text() {
    let mut high = vec![vec![0u8; 4]; 4];
    high[0][0] = 1;
    high[3][3] = 1;
    let text: String = render_braille(&high, 2, 1).into_iter().collect();
    assert_eq!(text, "\u{2801}\u{2880}\n");
}

#[test]
fn splat_adds_saturating_inside_the_buffer() {
    let mut high = vec![vec![0u8; 2]; 2];
    splat_dot(&mut high, 2, 2, 1, 1, 3);
    splat_dot(&mut high, 2, 2, 1, 1, 254);
    splat_dot(&mut high, 2, 2, 2, 0, 1);
    splat_dot(&mut high, 2, 2, 0, -1, 1);
    splat_dot(&mut high, 2, 2, 0, 0, 0);
    assert_eq!(high, vec![vec![0, 0], vec![0, 255]]);
}

#[test]
fn splat_visibility() {
    assert!(splat_visible(0, 0, 4, 8));
    assert!(splat_visible(4, 8, 4, 8));
    assert!(!splat_visible(-1, 0, 4, 8));
    assert!(!splat_visible(0, -1, 4, 8));
    assert!(!splat_visible(5, 0, 4, 8));
    assert!(!splat_visible(0, 9, 4, 8));
}
