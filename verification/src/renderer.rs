//! The rasterizer and the per-tick decisions of the render loop.
//!
//! Each frame sweeps two angle parameters over a full turn, computes a
//! point of a torus rotated by the two accumulated rotation angles,
//! projects it with perspective onto the 80 by 22 grid, and writes the
//! cell through the z-buffer test with a brightness glyph. Everything is
//! fixed-point `i64` arithmetic, so the whole frame is a mathematical
//! function of the two rotation angles, stated by `frame_depth` and
//! `frame_glyph` and proved of `compute_frame`.

use crate::fixed::{div_pos, div_trunc, mul_fp, spec_div_trunc, spec_mul_fp, SCALE};
use crate::input::Controls;
use crate::state::{blank_depth, blank_glyph, cell_write, Buffers, BUF_SIZE, SCREEN_H, SCREEN_W};
use crate::trig::{cos_fp, sin_fp, spec_cos_fp, spec_sin_fp, TWO_PI_FP};
use vstd::arithmetic::div_mod::{
    lemma_div_is_ordered_by_denominator, lemma_fundamental_div_mod_converse,
};
use vstd::math::abs;
use vstd::prelude::*;

verus! {

/// Angle step of the inner sweep, in angle units (0.02 rad).
pub const STEP_I: i64 = 200;

/// Angle step of the outer sweep, in angle units (0.07 rad).
pub const STEP_J: i64 = 700;

/// Inner sweep samples per frame: the largest n with n * STEP_I < TWO_PI_FP.
pub const SAMPLES_I: usize = 315;

/// Outer sweep samples per frame.
pub const SAMPLES_J: usize = 90;

/// Samples in one whole frame: SAMPLES_I * SAMPLES_J.
pub const SAMPLES: usize = 28350;

/// Per-frame increment of the first rotation angle (0.04 rad).
pub const STEP_A: i64 = 400;

/// Per-frame increment of the second rotation angle (0.02 rad).
pub const STEP_B: i64 = 200;

/// The luminance ramp: twelve glyphs from sparse to dense, none blank.
pub open spec fn spec_ramp_char(k: int) -> char {
    if k <= 0 {
        '.'
    } else if k == 1 {
        ','
    } else if k == 2 {
        '-'
    } else if k == 3 {
        '~'
    } else if k == 4 {
        ':'
    } else if k == 5 {
        ';'
    } else if k == 6 {
        '='
    } else if k == 7 {
        '!'
    } else if k == 8 {
        '*'
    } else if k == 9 {
        '#'
    } else if k == 10 {
        '$'
    } else {
        '@'
    }
}

/// Clamp a luminance value into the ramp: negatives to the dimmest
/// glyph, anything past the end to the densest.
pub open spec fn spec_glyph_index(nv: int) -> int {
    if nv <= 0 {
        0
    } else if nv < 11 {
        nv
    } else {
        11
    }
}

pub fn glyph_index(nv: i64) -> (gi: usize)
    ensures
        gi == spec_glyph_index(nv as int),
        gi < 12,
{
    if nv <= 0 {
        0
    } else if nv < 11 {
        nv as usize
    } else {
        11
    }
}

pub fn ramp_char(gi: usize) -> (c: char)
    requires
        gi < 12,
    ensures
        c == spec_ramp_char(gi as int),
{
    if gi == 0 {
        '.'
    } else if gi == 1 {
        ','
    } else if gi == 2 {
        '-'
    } else if gi == 3 {
        '~'
    } else if gi == 4 {
        ':'
    } else if gi == 5 {
        ';'
    } else if gi == 6 {
        '='
    } else if gi == 7 {
        '!'
    } else if gi == 8 {
        '*'
    } else if gi == 9 {
        '#'
    } else if gi == 10 {
        '$'
    } else {
        '@'
    }
}

/// One surface sample: from the sweep angles `i`, `j` and the sine and
/// cosine of the two rotation angles, the projected column, row, scaled
/// inverse depth, and luminance value, in that order.
pub open spec fn spec_sample_terms(i: int, j: int, sa: int, ca: int, sb: int, cb: int) -> (
    int,
    int,
    int,
    int,
) {
    let c = spec_sin_fp(i);
    let d = spec_cos_fp(j);
    let f = spec_sin_fp(j);
    let l = spec_cos_fp(i);
    let h = d + 2 * (SCALE as int);
    let ch = spec_mul_fp(c, h);
    let che = spec_mul_fp(ch, sa);
    let fg = spec_mul_fp(f, ca);
    let z = che + fg + 5 * (SCALE as int);
    let ooz = 100000000int / z;
    let chg = spec_mul_fp(ch, ca);
    let fe = spec_mul_fp(f, sa);
    let t = chg - fe;
    let lh = spec_mul_fp(l, h);
    let xterm = spec_mul_fp(lh, cb) - spec_mul_fp(t, sb);
    let yterm = spec_mul_fp(lh, sb) + spec_mul_fp(t, cb);
    let x = 40 + spec_div_trunc(30 * spec_mul_fp(ooz, xterm), SCALE as int);
    let y = 12 + spec_div_trunc(15 * spec_mul_fp(ooz, yterm), SCALE as int);
    let cd = spec_mul_fp(c, d);
    let cdg = spec_mul_fp(cd, ca);
    let cde = spec_mul_fp(cd, sa);
    let ldn = spec_mul_fp(spec_mul_fp(l, d), sb);
    let lum = spec_mul_fp(fe - cdg, cb) - cde - fg - ldn;
    let nv = spec_div_trunc(8 * lum, SCALE as int);
    (x, y, ooz, nv)
}

/// The same sample as a function of the rotation angles themselves.
pub open spec fn spec_sample(i: int, j: int, a: int, b: int) -> (int, int, int, int) {
    spec_sample_terms(i, j, spec_sin_fp(a), spec_cos_fp(a), spec_sin_fp(b), spec_cos_fp(b))
}

/// Compute one surface sample. The result equals `spec_sample_terms`
/// exactly, and the inverse depth always lands in `[1, SCALE]`.
fn compute_sample(i: i64, j: i64, sa: i64, ca: i64, sb: i64, cb: i64) -> (r: (i64, i64, i64, i64))
    requires
        0 <= i < TWO_PI_FP,
        0 <= j < TWO_PI_FP,
        abs(sa as int) <= SCALE,
        abs(ca as int) <= SCALE,
        abs(sb as int) <= SCALE,
        abs(cb as int) <= SCALE,
    ensures
        r.0 == spec_sample_terms(i as int, j as int, sa as int, ca as int, sb as int, cb as int).0,
        r.1 == spec_sample_terms(i as int, j as int, sa as int, ca as int, sb as int, cb as int).1,
        r.2 == spec_sample_terms(i as int, j as int, sa as int, ca as int, sb as int, cb as int).2,
        r.3 == spec_sample_terms(i as int, j as int, sa as int, ca as int, sb as int, cb as int).3,
        1 <= r.2 <= SCALE,
{
    let c = sin_fp(i);
    let d = cos_fp(j);
    let f = sin_fp(j);
    let l = cos_fp(i);
    let h: i64 = d + 2 * SCALE;
    let ch = mul_fp(c, h, Ghost(10000), Ghost(30000));
    let che = mul_fp(ch, sa, Ghost(30000), Ghost(10000));
    let fg = mul_fp(f, ca, Ghost(10000), Ghost(10000));
    let z: i64 = che + fg + 5 * SCALE;
    let ooz = div_pos(100000000, z);
    proof {
        lemma_div_is_ordered_by_denominator(100000000, 10000, z as int);
        lemma_div_is_ordered_by_denominator(100000000, z as int, 90000);
    }
    let chg = mul_fp(ch, ca, Ghost(30000), Ghost(10000));
    let fe = mul_fp(f, sa, Ghost(10000), Ghost(10000));
    let t: i64 = chg - fe;
    let lh = mul_fp(l, h, Ghost(10000), Ghost(30000));
    let xterm: i64 = mul_fp(lh, cb, Ghost(30000), Ghost(10000)) - mul_fp(
        t,
        sb,
        Ghost(40000),
        Ghost(10000),
    );
    let yterm: i64 = mul_fp(lh, sb, Ghost(30000), Ghost(10000)) + mul_fp(
        t,
        cb,
        Ghost(40000),
        Ghost(10000),
    );
    let x: i64 = 40 + div_trunc(30 * mul_fp(ooz, xterm, Ghost(10000), Ghost(70000)), SCALE);
    let y: i64 = 12 + div_trunc(15 * mul_fp(ooz, yterm, Ghost(10000), Ghost(70000)), SCALE);
    let cd = mul_fp(c, d, Ghost(10000), Ghost(10000));
    let cdg = mul_fp(cd, ca, Ghost(10000), Ghost(10000));
    let cde = mul_fp(cd, sa, Ghost(10000), Ghost(10000));
    let ld = mul_fp(l, d, Ghost(10000), Ghost(10000));
    let ldn = mul_fp(ld, sb, Ghost(10000), Ghost(10000));
    let lum: i64 = mul_fp(fe - cdg, cb, Ghost(20000), Ghost(10000)) - cde - fg - ldn;
    let nv = div_trunc(8 * lum, SCALE);
    (x, y, ooz, nv)
}

/// The effect of one sample on the frame: if it projects inside the
/// grid and is closer than what its cell holds, the cell takes its
/// inverse depth and its ramp glyph; otherwise nothing changes.
pub open spec fn spec_apply_sample(
    dz: Seq<i64>,
    dg: Seq<char>,
    i: int,
    j: int,
    a: int,
    b: int,
) -> (Seq<i64>, Seq<char>) {
    let s = spec_sample(i, j, a, b);
    if 0 <= s.1 && s.1 < SCREEN_H as int && 0 <= s.0 && s.0 < SCREEN_W as int {
        cell_write(
            dz,
            dg,
            s.0 + (SCREEN_W as int) * s.1,
            s.2 as i64,
            spec_ramp_char(spec_glyph_index(s.3)),
        )
    } else {
        (dz, dg)
    }
}

/// The frame after its first `n` samples, the outer sweep slow and the
/// inner sweep fast, starting from the cleared planes.
pub open spec fn spec_frame_at(a: int, b: int, n: nat) -> (Seq<i64>, Seq<char>)
    decreases n,
{
    if n == 0 {
        (blank_depth(), blank_glyph())
    } else {
        let k = n - 1;
        let prev = spec_frame_at(a, b, (n - 1) as nat);
        spec_apply_sample(
            prev.0,
            prev.1,
            (STEP_I as int) * (k % (SAMPLES_I as int)),
            (STEP_J as int) * (k / (SAMPLES_I as int)),
            a,
            b,
        )
    }
}

/// The depth plane of the finished frame at rotation angles `a`, `b`.
pub open spec fn frame_depth(a: int, b: int) -> Seq<i64> {
    spec_frame_at(a, b, SAMPLES as nat).0
}

/// The glyph plane of the finished frame at rotation angles `a`, `b`.
pub open spec fn frame_glyph(a: int, b: int) -> Seq<char> {
    spec_frame_at(a, b, SAMPLES as nat).1
}

/// An accumulated angle wrapped back below a full turn.
pub open spec fn spec_wrap(v: int) -> int {
    if v < TWO_PI_FP as int {
        v
    } else {
        v - TWO_PI_FP as int
    }
}

fn wrap_add(x: i64, step: i64) -> (r: i64)
    requires
        0 <= x < TWO_PI_FP,
        0 <= step <= TWO_PI_FP,
    ensures
        r == spec_wrap(x as int + step as int),
        0 <= r < TWO_PI_FP,
{
    let v: i64 = x + step;
    if v < TWO_PI_FP {
        v
    } else {
        v - TWO_PI_FP
    }
}

/// The renderer's own state: the two accumulated rotation angles, in
/// angle units, always within one turn.
pub struct Renderer {
    pub a: i64,
    pub b: i64,
}

impl Renderer {
    /// Both angles lie within one turn.
    pub open spec fn wf(&self) -> bool {
        0 <= self.a < TWO_PI_FP && 0 <= self.b < TWO_PI_FP
    }

    /// A renderer with both rotation angles at zero.
    pub fn new() -> (r: Renderer)
        ensures
            r.wf(),
            r.a == 0,
            r.b == 0,
    {
        Renderer { a: 0, b: 0 }
    }

    /// Zero both rotation angles.
    pub fn reset_rotation(&mut self)
        ensures
            final(self).wf(),
            final(self).a == 0,
            final(self).b == 0,
    {
        self.a = 0;
        self.b = 0;
    }

    /// Rasterize one frame into the cleared buffer, then advance both
    /// rotation angles by their fixed per-frame steps. The buffer
    /// afterwards holds exactly the frame of the angles before the call.
    pub fn compute_frame(&mut self, buf: &mut Buffers)
        requires
            old(self).wf(),
            old(buf).wf(),
            old(buf).is_blank(),
        ensures
            final(self).wf(),
            final(buf).wf(),
            final(buf).depth@ == frame_depth(old(self).a as int, old(self).b as int),
            final(buf).glyph@ == frame_glyph(old(self).a as int, old(self).b as int),
            final(self).a == spec_wrap(old(self).a + STEP_A),
            final(self).b == spec_wrap(old(self).b + STEP_B),
    {
        let ga = Ghost(self.a as int);
        let gb = Ghost(self.b as int);
        let sa = sin_fp(self.a);
        let ca = cos_fp(self.a);
        let sb = sin_fp(self.b);
        let cb = cos_fp(self.b);
        let mut jj: usize = 0;
        while jj < SAMPLES_J
            invariant
                jj <= SAMPLES_J,
                buf.wf(),
                self.a == ga@,
                self.b == gb@,
                0 <= ga@ < TWO_PI_FP,
                0 <= gb@ < TWO_PI_FP,
                sa == spec_sin_fp(ga@),
                ca == spec_cos_fp(ga@),
                sb == spec_sin_fp(gb@),
                cb == spec_cos_fp(gb@),
                abs(sa as int) <= SCALE,
                abs(ca as int) <= SCALE,
                abs(sb as int) <= SCALE,
                abs(cb as int) <= SCALE,
                buf.depth@ == spec_frame_at(ga@, gb@, (jj * SAMPLES_I) as nat).0,
                buf.glyph@ == spec_frame_at(ga@, gb@, (jj * SAMPLES_I) as nat).1,
            decreases SAMPLES_J - jj,
        {
            let j_fp: i64 = STEP_J * (jj as i64);
            let mut ii: usize = 0;
            while ii < SAMPLES_I
                invariant
                    jj < SAMPLES_J,
                    ii <= SAMPLES_I,
                    j_fp == STEP_J * (jj as i64),
                    buf.wf(),
                    self.a == ga@,
                    self.b == gb@,
                    0 <= ga@ < TWO_PI_FP,
                    0 <= gb@ < TWO_PI_FP,
                    sa == spec_sin_fp(ga@),
                    ca == spec_cos_fp(ga@),
                    sb == spec_sin_fp(gb@),
                    cb == spec_cos_fp(gb@),
                    abs(sa as int) <= SCALE,
                    abs(ca as int) <= SCALE,
                    abs(sb as int) <= SCALE,
                    abs(cb as int) <= SCALE,
                    buf.depth@ == spec_frame_at(ga@, gb@, (jj * SAMPLES_I + ii) as nat).0,
                    buf.glyph@ == spec_frame_at(ga@, gb@, (jj * SAMPLES_I + ii) as nat).1,
                decreases SAMPLES_I - ii,
            {
                let i_fp: i64 = STEP_I * (ii as i64);
                let ghost k: int = jj * SAMPLES_I + ii;
                proof {
                    lemma_fundamental_div_mod_converse(
                        k,
                        SAMPLES_I as int,
                        jj as int,
                        ii as int,
                    );
                    assert(spec_frame_at(ga@, gb@, (k + 1) as nat) == spec_apply_sample(
                        spec_frame_at(ga@, gb@, k as nat).0,
                        spec_frame_at(ga@, gb@, k as nat).1,
                        i_fp as int,
                        j_fp as int,
                        ga@,
                        gb@,
                    ));
                }
                let s = compute_sample(i_fp, j_fp, sa, ca, sb, cb);
                let x = s.0;
                let y = s.1;
                let ooz = s.2;
                let nv = s.3;
                if 0 <= y && y < SCREEN_H as i64 && 0 <= x && x < SCREEN_W as i64 {
                    let o: usize = (x + (SCREEN_W as i64) * y) as usize;
                    let gi = glyph_index(nv);
                    let g = ramp_char(gi);
                    buf.write_cell(o, ooz, g);
                }
                ii += 1;
            }
            jj += 1;
        }
        self.a = wrap_add(self.a, STEP_A);
        self.b = wrap_add(self.b, STEP_B);
    }
}

/// The base angle of a tick: zero when a reset was pending, otherwise
/// the angle the renderer carried in.
pub open spec fn base_angle(x: i64, was_reset: bool) -> int {
    if was_reset {
        0
    } else {
        x as int
    }
}

impl Renderer {
    /// One tick of the render loop, up to presentation: consume a
    /// pending reset, and unless paused, clear and recompute the frame
    /// and advance the rotation. The pause and quit flags are only read.
    pub fn tick(&mut self, buf: &mut Buffers, ctl: &mut Controls)
        requires
            old(self).wf(),
            old(buf).wf(),
        ensures
            final(self).wf(),
            final(buf).wf(),
            final(ctl).paused == old(ctl).paused,
            final(ctl).quit == old(ctl).quit,
            !final(ctl).reset,
            old(ctl).paused ==> final(buf).depth@ == old(buf).depth@
                && final(buf).glyph@ == old(buf).glyph@
                && final(self).a == base_angle(old(self).a, old(ctl).reset)
                && final(self).b == base_angle(old(self).b, old(ctl).reset),
            !old(ctl).paused ==> final(buf).depth@ == frame_depth(
                base_angle(old(self).a, old(ctl).reset),
                base_angle(old(self).b, old(ctl).reset),
            ) && final(buf).glyph@ == frame_glyph(
                base_angle(old(self).a, old(ctl).reset),
                base_angle(old(self).b, old(ctl).reset),
            ) && final(self).a == spec_wrap(base_angle(old(self).a, old(ctl).reset) + STEP_A)
                && final(self).b == spec_wrap(base_angle(old(self).b, old(ctl).reset) + STEP_B),
    {
        let was_reset = ctl.consume_reset();
        if was_reset {
            self.reset_rotation();
        }
        if !ctl.paused {
            buf.reset();
            self.compute_frame(buf);
        }
    }
}

/// A rolling frames-per-second sample: a running count of presented
/// frames, published and restarted once a second of wall time has passed.
pub struct FpsCounter {
    pub frames: u32,
    pub display: u32,
}

/// The frame count after one more frame, capped at the counter's range.
pub open spec fn spec_counted(f: u32) -> int {
    if f < 0xffff_ffff {
        f + 1
    } else {
        f as int
    }
}

impl FpsCounter {
    /// A counter with no frames seen and nothing published yet.
    pub fn new() -> (r: FpsCounter)
        ensures
            r.frames == 0,
            r.display == 0,
    {
        FpsCounter { frames: 0, display: 0 }
    }

    /// Count one presented frame; when a second has elapsed since the
    /// last sample, publish the count and start the next one.
    pub fn frame_done(&mut self, second_elapsed: bool)
        ensures
            second_elapsed ==> final(self).display == spec_counted(old(self).frames)
                && final(self).frames == 0,
            !second_elapsed ==> final(self).display == old(self).display
                && final(self).frames == spec_counted(old(self).frames),
    {
        let counted: u32 = if self.frames < 0xffff_ffff {
            self.frames + 1
        } else {
            self.frames
        };
        if second_elapsed {
            self.display = counted;
            self.frames = 0;
        } else {
            self.frames = counted;
        }
    }
}

/// How long the loop should still sleep to hit its target frame time:
/// the remainder of the budget, and never a negative duration.
pub fn pace_ms(target_ms: u64, elapsed_ms: u64) -> (r: u64)
    ensures
        r == if elapsed_ms < target_ms {
            target_ms - elapsed_ms
        } else {
            0
        },
{
    if elapsed_ms < target_ms {
        target_ms - elapsed_ms
    } else {
        0
    }
}

/// Rasterization is deterministic: the finished frame is a function of
/// the two rotation angles alone, so equal angles give equal planes.
pub proof fn lemma_rasterization_deterministic(a1: int, b1: int, a2: int, b2: int)
    requires
        a1 == a2,
        b1 == b2,
    ensures
        frame_depth(a1, b1) == frame_depth(a2, b2),
        frame_glyph(a1, b1) == frame_glyph(a2, b2),
{
}

/// Cells no sample ever touches keep the cleared state, at every prefix
/// of the sweep: a cell is blank exactly when its depth is still zero,
/// and stored depths are never negative.
pub proof fn lemma_untouched_cells_blank(a: int, b: int, n: nat)
    ensures
        spec_frame_at(a, b, n).0.len() == BUF_SIZE,
        spec_frame_at(a, b, n).1.len() == BUF_SIZE,
        forall|k: int|
            0 <= k < BUF_SIZE ==> (spec_frame_at(a, b, n).0[k] == 0i64 <==> spec_frame_at(
                a,
                b,
                n,
            ).1[k] == ' '),
        forall|k: int| 0 <= k < BUF_SIZE ==> spec_frame_at(a, b, n).0[k] >= 0i64,
    decreases n,
{
    if n == 0 {
    } else {
        lemma_untouched_cells_blank(a, b, (n - 1) as nat);
    }
}

} // verus!
