use donut::input::{listener_step, Controls, Key};
use donut::renderer::{glyph_index, ramp_char, Renderer};
use donut::state::{Buffers, BUF_SIZE, SCREEN_H, SCREEN_W};
use donut::trig::{cos_fp, sin_fp, HALF_PI_FP, PI_FP, TWO_PI_FP};

#[test]
fn sine_hits_the_cardinal_points() {
    assert_eq!(sin_fp(0), 0);
    assert_eq!(sin_fp(HALF_PI_FP), 10000);
    assert_eq!(sin_fp(PI_FP), 0);
    assert_eq!(sin_fp(PI_FP + HALF_PI_FP), -10000);
    assert_eq!(cos_fp(0), 10000);
    assert_eq!(cos_fp(HALF_PI_FP), 0);
    assert_eq!(cos_fp(PI_FP), -10000);
}

#[test]
fn sine_tracks_the_real_function() {
    let mut x: i64 = 0;
    while x < TWO_PI_FP {
        let approx = sin_fp(x) as f64 / 10000.0;
        let exact = ((x as f64) / 10000.0).sin();
        assert!(
            (approx - exact).abs() < 0.005,
            "sin_fp({}) = {} vs {}",
            x,
            approx,
            exact
        );
        let approx_c = cos_fp(x) as f64 / 10000.0;
        let exact_c = ((x as f64) / 10000.0).cos();
        assert!((approx_c - exact_c).abs() < 0.005);
        x += 97;
    }
}

#[test]
fn ramp_runs_from_sparse_to_dense() {
    let expected = ['.', ',', '-', '~', ':', ';', '=', '!', '*', '#', '$', '@'];
    for (k, want) in expected.iter().enumerate() {
        assert_eq!(ramp_char(k), *want);
    }
    assert_eq!(glyph_index(-7), 0);
    assert_eq!(glyph_index(0), 0);
    assert_eq!(glyph_index(3), 3);
    assert_eq!(glyph_index(11), 11);
    assert_eq!(glyph_index(40), 11);
}

#[test]
fn new_buffer_is_blank() {
    let b = Buffers::new();
    for k in 0..BUF_SIZE {
        assert_eq!(b.depth_at(k), 0);
        assert_eq!(b.glyph_at(k), ' ');
    }
}

#[test]
fn reset_twice_equals_reset_once() {
    let mut b = Buffers::new();
    b.write_cell(5, 1234, '@');
    b.write_cell(900, 77, '*');
    b.reset();
    let once = b.snapshot();
    let depth_once: Vec<i64> = (0..BUF_SIZE).map(|k| b.depth_at(k)).collect();
    b.reset();
    let twice = b.snapshot();
    let depth_twice: Vec<i64> = (0..BUF_SIZE).map(|k| b.depth_at(k)).collect();
    assert_eq!(once, twice);
    assert_eq!(depth_once, depth_twice);
    assert!(once.iter().all(|&c| c == ' '));
    assert!(depth_once.iter().all(|&d| d == 0));
}

#[test]
fn closer_write_wins_in_either_order() {
    let mut b = Buffers::new();
    b.write_cell(10, 100, 'a');
    b.write_cell(10, 200, 'b');
    assert_eq!(b.glyph_at(10), 'b');
    assert_eq!(b.depth_at(10), 200);

    let mut c = Buffers::new();
    c.write_cell(10, 200, 'b');
    c.write_cell(10, 100, 'a');
    assert_eq!(c.glyph_at(10), 'b');
    assert_eq!(c.depth_at(10), 200);
}

#[test]
fn equal_depth_keeps_the_first_write() {
    let mut b = Buffers::new();
    b.write_cell(33, 150, 'x');
    b.write_cell(33, 150, 'y');
    assert_eq!(b.glyph_at(33), 'x');
}

#[test]
fn rasterization_is_deterministic() {
    let mut r1 = Renderer::new();
    r1.a = 1200;
    r1.b = 700;
    let mut buf1 = Buffers::new();
    r1.compute_frame(&mut buf1);

    let mut r2 = Renderer::new();
    r2.a = 1200;
    r2.b = 700;
    let mut buf2 = Buffers::new();
    r2.compute_frame(&mut buf2);

    assert_eq!(buf1.snapshot(), buf2.snapshot());
    for k in 0..BUF_SIZE {
        assert_eq!(buf1.depth_at(k), buf2.depth_at(k));
    }
    assert_eq!(r1.a, r2.a);
    assert_eq!(r1.b, r2.b);
}

#[test]
fn torus_is_visible_in_the_central_band() {
    let mut r = Renderer::new();
    let mut buf = Buffers::new();
    r.compute_frame(&mut buf);
    let grid = buf.snapshot();
    let mut central_hits = 0;
    for row in 8..14 {
        for col in 0..SCREEN_W {
            if grid[row * SCREEN_W + col] != ' ' {
                central_hits += 1;
            }
        }
    }
    assert!(central_hits > 0);
}

#[test]
fn untouched_cells_stay_blank_with_zero_depth() {
    let mut r = Renderer::new();
    r.a = 3100;
    r.b = 900;
    let mut buf = Buffers::new();
    r.compute_frame(&mut buf);
    let mut blank = 0;
    for k in 0..BUF_SIZE {
        let d = buf.depth_at(k);
        let g = buf.glyph_at(k);
        assert!(d >= 0);
        assert_eq!(d == 0, g == ' ');
        if g == ' ' {
            blank += 1;
        }
    }
    assert!(blank > 0, "some cells must stay untouched");
    assert!(blank < BUF_SIZE, "some cells must be drawn");
}

#[test]
fn one_tick_advances_the_angles_by_the_fixed_steps() {
    let mut r = Renderer::new();
    let mut buf = Buffers::new();
    let mut ctl = Controls::new();
    r.tick(&mut buf, &mut ctl);
    assert_eq!(r.a, 400);
    assert_eq!(r.b, 200);
}

#[test]
fn angles_wrap_below_a_full_turn() {
    let mut r = Renderer::new();
    r.a = TWO_PI_FP - 100;
    r.b = TWO_PI_FP - 150;
    let mut buf = Buffers::new();
    let mut ctl = Controls::new();
    r.tick(&mut buf, &mut ctl);
    assert_eq!(r.a, 300);
    assert_eq!(r.b, 50);
}

#[test]
fn paused_loop_presents_the_same_frame_five_times() {
    let mut r = Renderer::new();
    let mut buf = Buffers::new();
    let mut ctl = Controls::new();
    r.tick(&mut buf, &mut ctl);
    let frozen = buf.snapshot();

    let st = listener_step(&mut ctl, Some(Key::Char(' ')));
    assert!(ctl.paused);
    let _ = st;

    let mut frames = Vec::new();
    for _ in 0..5 {
        r.tick(&mut buf, &mut ctl);
        frames.push(buf.snapshot());
    }
    for f in &frames {
        assert_eq!(*f, frozen);
    }
}

#[test]
fn reset_reproduces_the_frame_at_zero_angles() {
    let mut r = Renderer::new();
    let mut buf = Buffers::new();
    let mut ctl = Controls::new();
    for _ in 0..4 {
        r.tick(&mut buf, &mut ctl);
    }
    assert!(r.a != 0 || r.b != 0);

    listener_step(&mut ctl, Some(Key::Char('r')));
    assert!(ctl.reset);
    r.tick(&mut buf, &mut ctl);
    assert!(!ctl.reset);
    let after_reset = buf.snapshot();

    let mut fresh = Renderer::new();
    let mut fresh_buf = Buffers::new();
    fresh.compute_frame(&mut fresh_buf);
    assert_eq!(after_reset, fresh_buf.snapshot());
    assert_eq!(r.a, 400);
    assert_eq!(r.b, 200);
}

#[test]
fn paused_tick_still_consumes_a_reset() {
    let mut r = Renderer::new();
    let mut buf = Buffers::new();
    let mut ctl = Controls::new();
    r.tick(&mut buf, &mut ctl);
    listener_step(&mut ctl, Some(Key::Char(' ')));
    listener_step(&mut ctl, Some(Key::Char('r')));
    let before = buf.snapshot();
    r.tick(&mut buf, &mut ctl);
    assert!(!ctl.reset);
    assert_eq!(r.a, 0);
    assert_eq!(r.b, 0);
    assert_eq!(buf.snapshot(), before);
}

#[test]
fn snapshot_copies_the_glyph_plane() {
    let mut b = Buffers::new();
    b.write_cell(0, 5, '@');
    let s = b.snapshot();
    assert_eq!(s.len(), BUF_SIZE);
    assert_eq!(s[0], '@');
    assert_eq!(s[1], ' ');
    assert_eq!(SCREEN_W * SCREEN_H, BUF_SIZE);
}
