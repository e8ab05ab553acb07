use donut::present::{fmt_u32, row_of, status_line};
use donut::renderer::Renderer;
use donut::state::{Buffers, SCREEN_H, SCREEN_W};

#[test]
fn decimal_formatting_is_exact() {
    assert_eq!(fmt_u32(0), "0");
    assert_eq!(fmt_u32(7), "7");
    assert_eq!(fmt_u32(10), "10");
    assert_eq!(fmt_u32(42), "42");
    assert_eq!(fmt_u32(1000), "1000");
    assert_eq!(fmt_u32(4294967295), "4294967295");
}

#[test]
fn status_line_shows_pause_state_and_fps() {
    assert_eq!(
        status_line(true, 30),
        "[PAUSED] FPS: 30  (space pause/resume, r reset, q quit)"
    );
    assert_eq!(
        status_line(false, 0),
        "         FPS: 0  (space pause/resume, r reset, q quit)"
    );
}

#[test]
fn rows_cover_the_grid_in_order() {
    let mut r = Renderer::new();
    let mut buf = Buffers::new();
    r.compute_frame(&mut buf);
    let grid = buf.snapshot();
    let mut rebuilt: Vec<char> = Vec::new();
    for row in 0..SCREEN_H {
        let line = row_of(&grid, row);
        assert_eq!(line.len(), SCREEN_W);
        rebuilt.extend(line);
    }
    assert_eq!(rebuilt, grid);
}
