use hachi::present::DISPLAY_HEIGHT;
use hachi::present::DISPLAY_WIDTH;
use hachi::present::RectSpec;
use hachi::present::SCALE;
use hachi::present::render_rects;

fn blank_buffer() -> Vec<bool> {
    vec![false; DISPLAY_WIDTH * DISPLAY_HEIGHT]
}

#[test]
fn display_constants() {
    assert_eq!(DISPLAY_WIDTH, 64);
    assert_eq!(DISPLAY_HEIGHT, 32);
    assert_eq!(SCALE, 20);
}

#[test]
fn render_blank_buffer_yields_no_rects() {
    let rects = render_rects(&blank_buffer());
    assert!(rects.is_empty());
}

#[test]
fn render_cell_65_lands_at_scaled_origin() {
    // cell 65 sits at column 1, row 1: a 20-by-20 block at pixel (20, 20)
    let mut buffer = blank_buffer();
    buffer[65] = true;
    let rects = render_rects(&buffer);
    assert_eq!(rects, vec![RectSpec { x: 20, y: 20, width: 20, height: 20 }]);
}

#[test]
fn render_one_rect_per_lit_cell() {
    let mut buffer = blank_buffer();
    buffer[0] = true;
    buffer[63] = true;
    buffer[64] = true;
    buffer[2047] = true;
    let rects = render_rects(&buffer);
    assert_eq!(rects.len(), 4);
}

#[test]
fn render_keeps_row_major_order() {
    let mut buffer = blank_buffer();
    buffer[0] = true;
    buffer[1] = true;
    buffer[64] = true;
    let rects = render_rects(&buffer);
    assert_eq!(
        rects,
        vec![
            RectSpec { x: 0, y: 0, width: 20, height: 20 },
            RectSpec { x: 20, y: 0, width: 20, height: 20 },
            RectSpec { x: 0, y: 20, width: 20, height: 20 },
        ]
    );
}

#[test]
fn render_last_cell_scaled_corner() {
    let mut buffer = blank_buffer();
    buffer[DISPLAY_WIDTH * DISPLAY_HEIGHT - 1] = true;
    let rects = render_rects(&buffer);
    assert_eq!(rects, vec![RectSpec { x: 1260, y: 620, width: 20, height: 20 }]);
}
