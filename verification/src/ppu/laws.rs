//! Laws of the timing state machine and the register file, stated and
//! proved over the same specifications the executable code is verified
//! against.

use vstd::prelude::*;
use crate::ppu::reg::{Line, Scroll, StatMode, Window, STAT_LYC_LY_FLAG};
use crate::ppu::palette::Pal;
use crate::ppu::{spec_transition, spec_vblank_ly, sprite_pixel_visible, Ppu, Transition, Video};
use crate::ppu::{HBLANK, PIXELS, SEARCH, VBLANK};
use crate::device::Device;

verus! {

/// Dots one scanline takes: search, pixel transfer and horizontal blank.
pub const LINE_DOTS: u64 = 457;

/// Dots of a whole frame: 144 drawn lines plus the vertical blank.
pub const FRAME_DOTS: u64 = 70368;

/// Dot at which the vertical blank begins.
pub const VBLANK_START: u64 = 65808;

/// Length of the phase the machine is in.
pub open spec fn phase_len(mode: StatMode) -> int {
    match mode {
        StatMode::Search => SEARCH as int,
        StatMode::Pixels => PIXELS as int,
        StatMode::HBlank => HBLANK as int,
        StatMode::VBlank => VBLANK as int,
    }
}

/// A timing state between transitions: the dot counter has been folded
/// into the current phase, and the line counter is in its legal range.
pub open spec fn settled(mode: StatMode, dots: u64, ly: u8) -> bool {
    &&& dots < phase_len(mode)
    &&& (mode is VBlank ==> ly == 0 || 144 <= ly <= 153)
    &&& (!(mode is VBlank) ==> ly <= 143)
}

/// Absolute position within the frame, in dots from the top-left corner.
pub open spec fn frame_pos(mode: StatMode, dots: u64, ly: u8) -> int {
    match mode {
        StatMode::Search => LINE_DOTS * ly + dots,
        StatMode::Pixels => LINE_DOTS * ly + SEARCH + dots,
        StatMode::HBlank => LINE_DOTS * ly + SEARCH + PIXELS + dots,
        StatMode::VBlank => VBLANK_START + dots,
    }
}

/// The line counter as a function of the frame position: 457 dots per
/// drawn line, 456 per vertical-blank line, with the mid-line fallback to
/// 0 on the last one.
pub open spec fn ly_of_pos(pos: int) -> int {
    if pos < VBLANK_START {
        pos / LINE_DOTS as int
    } else {
        let d = pos - VBLANK_START;
        let l = 144 + d / 456;
        if l == 153 && d % 456 > 228 {
            0
        } else {
            l
        }
    }
}

/// In a settled state the line counter reads exactly what the frame
/// position dictates.
pub open spec fn line_consistent(mode: StatMode, dots: u64, ly: u8) -> bool {
    ly == ly_of_pos(frame_pos(mode, dots, ly))
}

/// One `step` of up to a phase's worth of dots advances the frame position
/// by exactly the cycles fed in, wrapping at the end of the frame, and
/// requests a vertical-blank interrupt exactly when it carries the
/// position across the start of the vertical blank.
pub proof fn lemma_transition_advances_frame(mode: StatMode, dots: u64, ly: u8, stat: u8, c: u64)
    requires
        settled(mode, dots, ly),
        1 <= c <= 80,
    ensures
        ({
            let t = spec_transition(mode, (dots + c) as u64, ly, stat);
            let pos0 = frame_pos(mode, dots, ly);
            &&& settled(t.mode, t.dots, t.ly)
            &&& frame_pos(t.mode, t.dots, t.ly) == if pos0 + c < FRAME_DOTS {
                pos0 + c
            } else {
                pos0 + c - FRAME_DOTS
            }
            &&& (t.vblank_irq <==> pos0 < VBLANK_START <= pos0 + c)
            &&& t.present == t.vblank_irq
            &&& line_consistent(mode, dots, ly) ==> line_consistent(t.mode, t.dots, t.ly)
        }),
{
    let d = (dots + c) as u64;
    let t = spec_transition(mode, d, ly, stat);
    assert forall|l: u8, dd: u64, m: StatMode|
        settled(m, dd, l) && !(m is VBlank) implies l == ly_of_pos(frame_pos(m, dd, l)) by {
        let base = frame_pos(m, dd, l) - LINE_DOTS * l;
        assert(0 <= base < LINE_DOTS);
        assert((LINE_DOTS * l + base) / LINE_DOTS as int == l) by (nonlinear_arith)
            requires
                0 <= base < LINE_DOTS,
                0 <= l,
        ;
    }
    match mode {
        StatMode::Search => {
            if d >= SEARCH {
                assert(d % SEARCH == d - SEARCH) by (nonlinear_arith)
                    requires
                        SEARCH <= d < 2 * SEARCH,
                ;
            }
        },
        StatMode::Pixels => {
            if d >= PIXELS {
                assert(d % PIXELS == d - PIXELS) by (nonlinear_arith)
                    requires
                        PIXELS <= d < 2 * PIXELS,
                ;
            }
        },
        StatMode::HBlank => {
            if d >= HBLANK {
                assert(d % HBLANK == d - HBLANK) by (nonlinear_arith)
                    requires
                        HBLANK <= d < 2 * HBLANK,
                ;
            }
        },
        StatMode::VBlank => {
            if d >= VBLANK {
                assert(d % VBLANK == d - VBLANK) by (nonlinear_arith)
                    requires
                        VBLANK <= d < 2 * VBLANK,
                ;
            } else {
                assert(t.ly == spec_vblank_ly(d, ly));
                if ly != 0 {
                    assert(144 + d / 456 <= 153) by (nonlinear_arith)
                        requires
                            d < 4560,
                    ;
                }
            }
        },
    }
}

/// Total dots a sequence of step arguments feeds in.
pub open spec fn sum_cycles(cycles: Seq<u64>) -> int
    decreases cycles.len(),
{
    if cycles.len() == 0 {
        0
    } else {
        cycles[0] + sum_cycles(cycles.drop_first())
    }
}

/// The timing state (phase, dot counter, line) after feeding a sequence
/// of step cycle counts. The phase, dots and line never depend on the
/// STAT enables, so they are modelled with a zero STAT byte.
pub open spec fn spec_run_timing(mode: StatMode, dots: u64, ly: u8, cycles: Seq<u64>) -> (
    StatMode,
    u64,
    u8,
)
    decreases cycles.len(),
{
    if cycles.len() == 0 {
        (mode, dots, ly)
    } else {
        let t = spec_transition(mode, (dots + cycles[0]) as u64, ly, 0);
        spec_run_timing(t.mode, t.dots, t.ly, cycles.drop_first())
    }
}

/// How many vertical-blank requests a run raises.
pub open spec fn spec_run_vblanks(mode: StatMode, dots: u64, ly: u8, cycles: Seq<u64>) -> int
    decreases cycles.len(),
{
    if cycles.len() == 0 {
        0
    } else {
        let t = spec_transition(mode, (dots + cycles[0]) as u64, ly, 0);
        (if t.vblank_irq {
            1int
        } else {
            0int
        }) + spec_run_vblanks(t.mode, t.dots, t.ly, cycles.drop_first())
    }
}

/// Running within one frame moves the frame position by exactly the sum
/// of the cycles, and raises a vertical-blank request exactly when the
/// run carries the position across the start of the vertical blank.
pub proof fn lemma_run_within_frame(mode: StatMode, dots: u64, ly: u8, cycles: Seq<u64>)
    requires
        settled(mode, dots, ly),
        forall|i: int| 0 <= i < cycles.len() ==> 1 <= #[trigger] cycles[i] <= 80,
        frame_pos(mode, dots, ly) + sum_cycles(cycles) <= FRAME_DOTS,
    ensures
        ({
            let (m2, d2, l2) = spec_run_timing(mode, dots, ly, cycles);
            let pos0 = frame_pos(mode, dots, ly);
            let pos2 = pos0 + sum_cycles(cycles);
            &&& settled(m2, d2, l2)
            &&& frame_pos(m2, d2, l2) == if pos2 < FRAME_DOTS {
                pos2
            } else {
                0int
            }
            &&& spec_run_vblanks(mode, dots, ly, cycles) == if pos0 < VBLANK_START <= pos2 {
                1int
            } else {
                0int
            }
            &&& line_consistent(mode, dots, ly) ==> line_consistent(m2, d2, l2)
        }),
    decreases cycles.len(),
{
    if cycles.len() == 0 {
    } else {
        let c = cycles[0];
        let rest = cycles.drop_first();
        assert(sum_cycles(cycles) == c + sum_cycles(rest));
        assert(forall|i: int| 0 <= i < rest.len() ==> 1 <= #[trigger] rest[i] <= 80);
        assert(sum_cycles(rest) >= 0) by {
            lemma_sum_cycles_nonneg(rest);
        }
        lemma_transition_advances_frame(mode, dots, ly, 0, c);
        let t = spec_transition(mode, (dots + c) as u64, ly, 0);
        lemma_run_within_frame(t.mode, t.dots, t.ly, rest);
    }
}

/// A sum of positive cycle counts is nonnegative.
pub proof fn lemma_sum_cycles_nonneg(cycles: Seq<u64>)
    requires
        forall|i: int| 0 <= i < cycles.len() ==> 1 <= #[trigger] cycles[i] <= 80,
    ensures
        sum_cycles(cycles) >= 0,
    decreases cycles.len(),
{
    if cycles.len() > 0 {
        lemma_sum_cycles_nonneg(cycles.drop_first());
    }
}

/// A prefix of a run feeds in at most the whole run's dots.
pub proof fn lemma_sum_take_le(cycles: Seq<u64>, k: int)
    requires
        forall|i: int| 0 <= i < cycles.len() ==> 1 <= #[trigger] cycles[i] <= 80,
        0 <= k <= cycles.len(),
    ensures
        sum_cycles(cycles.take(k)) <= sum_cycles(cycles),
        sum_cycles(cycles.take(k)) >= 0,
    decreases k,
{
    if k == 0 {
        assert(cycles.take(0) =~= Seq::<u64>::empty());
        lemma_sum_cycles_nonneg(cycles);
    } else {
        assert(cycles.take(k).drop_first() =~= cycles.drop_first().take(k - 1));
        lemma_sum_take_le(cycles.drop_first(), k - 1);
        assert(sum_cycles(cycles) == cycles[0] + sum_cycles(cycles.drop_first()));
        assert(sum_cycles(cycles.take(k)) == cycles.take(k)[0] + sum_cycles(
            cycles.take(k).drop_first(),
        ));
    }
}

/// Because every step feeds in at most 80 dots, a run cannot jump over an
/// 80-dot window: some prefix of it leaves the machine with its frame
/// position inside `[target, target + 79]`.
pub proof fn lemma_run_hits_window(mode: StatMode, dots: u64, ly: u8, cycles: Seq<u64>, target: int)
    requires
        settled(mode, dots, ly),
        forall|i: int| 0 <= i < cycles.len() ==> 1 <= #[trigger] cycles[i] <= 80,
        frame_pos(mode, dots, ly) <= target,
        target <= frame_pos(mode, dots, ly) + sum_cycles(cycles),
        frame_pos(mode, dots, ly) + sum_cycles(cycles) <= FRAME_DOTS,
        target + 80 <= FRAME_DOTS,
    ensures
        exists|k: int|
            0 <= k <= cycles.len() && {
                let (m, d, l) = spec_run_timing(mode, dots, ly, #[trigger] cycles.take(k));
                target <= frame_pos(m, d, l) <= target + 79
            },
    decreases cycles.len(),
{
    let pos0 = frame_pos(mode, dots, ly);
    if pos0 >= target {
        let k = 0int;
        assert(cycles.take(0) =~= Seq::<u64>::empty());
        assert({
            let (m, d, l) = spec_run_timing(mode, dots, ly, cycles.take(k));
            target <= frame_pos(m, d, l) <= target + 79
        });
    } else {
        if cycles.len() == 0 {
            assert(false);
        }
        let c = cycles[0];
        let rest = cycles.drop_first();
        lemma_sum_cycles_nonneg(rest);
        lemma_transition_advances_frame(mode, dots, ly, 0, c);
        let t = spec_transition(mode, (dots + c) as u64, ly, 0);
        let pos1 = frame_pos(t.mode, t.dots, t.ly);
        assert(pos0 + c < FRAME_DOTS);
        assert(pos1 == pos0 + c);
        if pos1 >= target {
            let k = 1int;
            assert(cycles.take(1).len() == 1);
            assert(cycles.take(1).drop_first() =~= rest.take(0));
            assert(rest.take(0) =~= Seq::<u64>::empty());
            assert(cycles.take(1)[0] == c);
            assert(spec_run_timing(t.mode, t.dots, t.ly, rest.take(0)) == (t.mode, t.dots, t.ly));
            assert(spec_run_timing(mode, dots, ly, cycles.take(1)) == (t.mode, t.dots, t.ly));
            assert({
                let (m, d, l) = spec_run_timing(mode, dots, ly, cycles.take(k));
                target <= frame_pos(m, d, l) <= target + 79
            });
        } else {
            lemma_run_hits_window(t.mode, t.dots, t.ly, rest, target);
            let k2 = choose|k2: int|
                0 <= k2 <= rest.len() && {
                    let (m, d, l) = spec_run_timing(t.mode, t.dots, t.ly, #[trigger] rest.take(k2));
                    target <= frame_pos(m, d, l) <= target + 79
                };
            let k = k2 + 1;
            assert(cycles.take(k).drop_first() =~= rest.take(k2));
            assert(cycles.take(k)[0] == c);
            assert(spec_run_timing(mode, dots, ly, cycles.take(k)) == spec_run_timing(
                t.mode,
                t.dots,
                t.ly,
                rest.take(k2),
            ));
            assert({
                let (m, d, l) = spec_run_timing(mode, dots, ly, cycles.take(k));
                target <= frame_pos(m, d, l) <= target + 79
            });
        }
    }
}

/// Some prefix of a frame-long run from the top of the frame leaves the
/// line counter on `v`.
pub open spec fn visits_line(cycles: Seq<u64>, v: int) -> bool {
    exists|k: int|
        0 <= k <= cycles.len() && spec_run_timing(
            StatMode::Search,
            0,
            0,
            #[trigger] cycles.take(k),
        ).2 == v
}

/// Law: over one whole frame the machine passes through every line: for
/// each value 0 to 153 some prefix of the run leaves the line counter on
/// it.
pub proof fn lemma_frame_visits_every_line(cycles: Seq<u64>)
    requires
        forall|i: int| 0 <= i < cycles.len() ==> 1 <= #[trigger] cycles[i] <= 80,
        sum_cycles(cycles) == FRAME_DOTS,
    ensures
        forall|v: int| 0 <= v < 154 ==> #[trigger] visits_line(cycles, v),
{
    assert forall|v: int| 0 <= v < 154 implies #[trigger] visits_line(cycles, v) by {
        let target = if v < 144 {
            457 * v
        } else if v < 153 {
            VBLANK_START + 456 * (v - 144)
        } else {
            VBLANK_START + 4104
        };
        lemma_run_hits_window(StatMode::Search, 0, 0, cycles, target);
        let k = choose|k: int|
            0 <= k <= cycles.len() && {
                let (m, d, l) = spec_run_timing(StatMode::Search, 0, 0, #[trigger] cycles.take(k));
                target <= frame_pos(m, d, l) <= target + 79
            };
        lemma_sum_take_le(cycles, k);
        lemma_run_within_frame(StatMode::Search, 0, 0, cycles.take(k));
        let (m, d, l) = spec_run_timing(StatMode::Search, 0, 0, cycles.take(k));
        let pos = frame_pos(m, d, l);
        assert(line_consistent(StatMode::Search, 0, 0));
        assert(l == ly_of_pos(pos));
        if v < 144 {
            assert(pos / 457 == v) by (nonlinear_arith)
                requires
                    457 * v <= pos <= 457 * v + 79,
                    0 <= v,
            ;
        } else {
            let dd = pos - VBLANK_START;
            assert(144 + dd / 456 == v && dd % 456 <= 228) by (nonlinear_arith)
                requires
                    456 * (v - 144) <= dd <= 456 * (v - 144) + 79,
                    144 <= v <= 153,
                    v == 153 ==> 456 * (v - 144) == 4104,
            ;
        }
        assert(spec_run_timing(StatMode::Search, 0, 0, cycles.take(k)).2 == v);
        assert(visits_line(cycles, v));
    }
}

/// The frame positions whose line counter reads `v` form one contiguous
/// stretch, for every line except 0 (which also covers the tail of the
/// last vertical-blank line and the wrap back to the top).
pub proof fn lemma_ly_of_pos_convex(v: int, p1: int, p2: int, p3: int)
    requires
        1 <= v <= 153,
        0 <= p1 <= p2 <= p3 < FRAME_DOTS,
        ly_of_pos(p1) == v,
        ly_of_pos(p3) == v,
    ensures
        ly_of_pos(p2) == v,
{
    vstd::arithmetic::div_mod::lemma_fundamental_div_mod(p1, LINE_DOTS as int);
    vstd::arithmetic::div_mod::lemma_fundamental_div_mod(p3, LINE_DOTS as int);
    if v < 144 {
        assert(p1 < VBLANK_START && p3 < VBLANK_START) by {
            if p1 >= VBLANK_START {
                assert((p1 - VBLANK_START) / 456 >= 0) by (nonlinear_arith)
                    requires
                        p1 - VBLANK_START >= 0,
                ;
            }
            if p3 >= VBLANK_START {
                assert((p3 - VBLANK_START) / 456 >= 0) by (nonlinear_arith)
                    requires
                        p3 - VBLANK_START >= 0,
                ;
            }
        }
        assert(0 <= p1 % (LINE_DOTS as int) < LINE_DOTS);
        assert(0 <= p3 % (LINE_DOTS as int) < LINE_DOTS);
        assert(LINE_DOTS * v <= p2 < LINE_DOTS * v + LINE_DOTS) by (nonlinear_arith)
            requires
                p1 == LINE_DOTS * v + p1 % (LINE_DOTS as int),
                p3 == LINE_DOTS * v + p3 % (LINE_DOTS as int),
                0 <= p1 % (LINE_DOTS as int) < LINE_DOTS,
                0 <= p3 % (LINE_DOTS as int) < LINE_DOTS,
                p1 <= p2 <= p3,
        ;
        vstd::arithmetic::div_mod::lemma_fundamental_div_mod_converse(
            p2,
            LINE_DOTS as int,
            v,
            p2 - LINE_DOTS * v,
        );
    } else {
        assert(p1 >= VBLANK_START && p3 >= VBLANK_START) by {
            if p1 < VBLANK_START {
                assert(p1 / (LINE_DOTS as int) <= 143) by (nonlinear_arith)
                    requires
                        0 <= p1 < VBLANK_START,
                        VBLANK_START == 144 * LINE_DOTS,
                ;
            }
            if p3 < VBLANK_START {
                assert(p3 / (LINE_DOTS as int) <= 143) by (nonlinear_arith)
                    requires
                        0 <= p3 < VBLANK_START,
                        VBLANK_START == 144 * LINE_DOTS,
                ;
            }
        }
        let d1 = p1 - VBLANK_START;
        let d2 = p2 - VBLANK_START;
        let d3 = p3 - VBLANK_START;
        vstd::arithmetic::div_mod::lemma_fundamental_div_mod(d1, 456);
        vstd::arithmetic::div_mod::lemma_fundamental_div_mod(d3, 456);
        if v < 153 {
            assert(456 * (v - 144) <= d2 < 456 * (v - 143)) by (nonlinear_arith)
                requires
                    d1 == 456 * (v - 144) + d1 % 456,
                    d3 == 456 * (v - 144) + d3 % 456,
                    0 <= d1 % 456 < 456,
                    0 <= d3 % 456 < 456,
                    d1 <= d2 <= d3,
            ;
            vstd::arithmetic::div_mod::lemma_fundamental_div_mod_converse(
                d2,
                456,
                v - 144,
                d2 - 456 * (v - 144),
            );
        } else {
            // line 153 holds only up to the mid-line fallback
            assert(4104 <= d1 && d3 <= 4104 + 228) by {
                assert(d1 == 456 * 9 + d1 % 456 && d3 == 456 * 9 + d3 % 456);
            }
            vstd::arithmetic::div_mod::lemma_fundamental_div_mod_converse(d2, 456, 9, d2 - 4104);
        }
    }
}

/// Law: over one whole frame each line from 1 to 153 appears as one
/// contiguous run of step prefixes: once the counter has left the line it
/// does not come back within the frame.
pub proof fn lemma_frame_visits_each_line_once(cycles: Seq<u64>, v: int, k1: int, k2: int, k3: int)
    requires
        forall|i: int| 0 <= i < cycles.len() ==> 1 <= #[trigger] cycles[i] <= 80,
        sum_cycles(cycles) == FRAME_DOTS,
        1 <= v <= 153,
        0 <= k1 <= k2 <= k3 <= cycles.len(),
        spec_run_timing(StatMode::Search, 0, 0, cycles.take(k1)).2 == v,
        spec_run_timing(StatMode::Search, 0, 0, cycles.take(k3)).2 == v,
    ensures
        spec_run_timing(StatMode::Search, 0, 0, cycles.take(k2)).2 == v,
{
    lemma_sum_take_le(cycles, k1);
    lemma_sum_take_le(cycles, k2);
    lemma_sum_take_le(cycles, k3);
    lemma_run_within_frame(StatMode::Search, 0, 0, cycles.take(k1));
    lemma_run_within_frame(StatMode::Search, 0, 0, cycles.take(k2));
    lemma_run_within_frame(StatMode::Search, 0, 0, cycles.take(k3));
    lemma_sum_take_monotone(cycles, k1, k2);
    lemma_sum_take_monotone(cycles, k2, k3);
    let s1 = sum_cycles(cycles.take(k1));
    let s2 = sum_cycles(cycles.take(k2));
    let s3 = sum_cycles(cycles.take(k3));
    // a prefix ending exactly at the frame boundary reads line 0, not v
    assert(s1 < FRAME_DOTS && s3 < FRAME_DOTS) by {
        if s1 == FRAME_DOTS {
            assert(ly_of_pos(0) == 0);
        }
        if s3 == FRAME_DOTS {
            assert(ly_of_pos(0) == 0);
        }
    }
    assert(ly_of_pos(s1) == v && ly_of_pos(s3) == v);
    lemma_ly_of_pos_convex(v, s1, s2, s3);
}

/// Feeding more steps feeds at least as many dots.
pub proof fn lemma_sum_take_monotone(cycles: Seq<u64>, a: int, b: int)
    requires
        forall|i: int| 0 <= i < cycles.len() ==> 1 <= #[trigger] cycles[i] <= 80,
        0 <= a <= b <= cycles.len(),
    ensures
        sum_cycles(cycles.take(a)) <= sum_cycles(cycles.take(b)),
    decreases a,
{
    if a == 0 {
        assert(cycles.take(0) =~= Seq::<u64>::empty());
        lemma_sum_take_le(cycles, b);
    } else {
        assert(cycles.take(a).drop_first() =~= cycles.drop_first().take(a - 1));
        assert(cycles.take(b).drop_first() =~= cycles.drop_first().take(b - 1));
        lemma_sum_take_monotone(cycles.drop_first(), a - 1, b - 1);
        assert(cycles.take(a)[0] == cycles[0] && cycles.take(b)[0] == cycles[0]);
    }
}

/// Law: starting at the top of the frame, any sequence of steps of at
/// most a phase's worth of dots each, summing to one whole frame, returns
/// the machine to the sprite-search phase of line 0 with the dot counter
/// at 0, and raises exactly one vertical-blank request on the way.
pub proof fn lemma_frame_round_trip(cycles: Seq<u64>)
    requires
        forall|i: int| 0 <= i < cycles.len() ==> 1 <= #[trigger] cycles[i] <= 80,
        sum_cycles(cycles) == FRAME_DOTS,
    ensures
        spec_run_timing(StatMode::Search, 0, 0, cycles) == (StatMode::Search, 0u64, 0u8),
        spec_run_vblanks(StatMode::Search, 0, 0, cycles) == 1,
{
    lemma_run_within_frame(StatMode::Search, 0, 0, cycles);
    let (m2, d2, l2) = spec_run_timing(StatMode::Search, 0, 0, cycles);
    assert(frame_pos(m2, d2, l2) == 0);
    match m2 {
        StatMode::Search => {
            assert(LINE_DOTS * l2 + d2 == 0);
            assert(LINE_DOTS * l2 >= 0) by (nonlinear_arith);
            assert(LINE_DOTS * l2 == 0);
            assert(l2 == 0) by (nonlinear_arith)
                requires
                    LINE_DOTS * l2 == 0,
            ;
        },
        StatMode::Pixels => {
            assert(LINE_DOTS * l2 >= 0) by (nonlinear_arith);
        },
        StatMode::HBlank => {
            assert(LINE_DOTS * l2 >= 0) by (nonlinear_arith);
        },
        StatMode::VBlank => {},
    }
}

/// The phase, dot counter, line and vertical-blank request of a step do
/// not depend on the STAT byte; only the STAT-source request does. This
/// ties the run model above to the machine, whose STAT byte changes as it
/// runs.
pub proof fn lemma_transition_timing_ignores_stat(mode: StatMode, dots: u64, ly: u8, stat: u8)
    ensures
        spec_transition(mode, dots, ly, stat).mode == spec_transition(mode, dots, ly, 0).mode,
        spec_transition(mode, dots, ly, stat).dots == spec_transition(mode, dots, ly, 0).dots,
        spec_transition(mode, dots, ly, stat).ly == spec_transition(mode, dots, ly, 0).ly,
        spec_transition(mode, dots, ly, stat).vblank_irq == spec_transition(
            mode,
            dots,
            ly,
            0,
        ).vblank_irq,
        spec_transition(mode, dots, ly, stat).present == spec_transition(mode, dots, ly, 0).present,
        spec_transition(mode, dots, ly, stat).render == spec_transition(mode, dots, ly, 0).render,
        spec_transition(mode, dots, ly, stat).search == spec_transition(mode, dots, ly, 0).search,
{
}

/// A line-compare STAT request presumes a rising edge: it can only be
/// raised by a step that moves the line counter onto the compare line, so
/// the compare was false before the step.
pub open spec fn spec_lyc_request(t: Transition, ly: u8, stat: u8, lyc: u8) -> bool {
    t.ly == lyc && t.ly != ly && stat & STAT_LYC_LY_FLAG != 0
}

/// Law: while the line counter sits on the compare line, further steps
/// that keep it there raise no new line-compare request, however long the
/// equality holds.
pub proof fn lemma_lyc_no_repeat(mode: StatMode, dots: u64, ly: u8, stat: u8, lyc: u8)
    requires
        ly == lyc,
    ensures
        ({
            let t = spec_transition(mode, dots, ly, stat);
            t.ly == ly ==> !spec_lyc_request(t, ly, stat, lyc)
        }),
{
}

/// Law: a line-compare request implies the compare did not hold before
/// the step: requests fire on the rising edge only.
pub proof fn lemma_lyc_rising_edge(mode: StatMode, dots: u64, ly: u8, stat: u8, lyc: u8)
    ensures
        spec_lyc_request(spec_transition(mode, dots, ly, stat), ly, stat, lyc) ==> ly != lyc,
{
}

/// Law: a sprite pixel carrying the "behind background" flag is
/// suppressed exactly where the shadow buffer shows an opaque background
/// index, and shown exactly where it shows index 0 (the priority sentinel
/// aside, which beats every sprite).
pub proof fn lemma_behind_background_suppression(ci: u8, flags: u8, shadow: u8)
    requires
        flags & 0x80 != 0,
        ci != 0,
        shadow != 4,
    ensures
        sprite_pixel_visible(ci, flags, shadow) <==> shadow == 0,
{
}

/// Law: writing SCX, SCY, WX, WY, LYC or one of the monochrome palette
/// registers stores the byte exactly: a read at the same address returns
/// it. The clauses mirror the write postconditions of the bus interface.
pub proof fn lemma_register_round_trip<V: Video>(p: Ppu<V>, data: u8)
    ensures
        (Ppu { scroll: Scroll { scy: data, ..p.scroll }, ..p }).byte_at(0xff42) == data,
        (Ppu { scroll: Scroll { scx: data, ..p.scroll }, ..p }).byte_at(0xff43) == data,
        (Ppu { line: Line { ly: p.line.ly, lyc: data }, ..p }).byte_at(0xff45) == data,
        (Ppu { win: Window { wy: data, ..p.win }, ..p }).byte_at(0xff4a) == data,
        (Ppu { win: Window { wx: data, ..p.win }, ..p }).byte_at(0xff4b) == data,
        (Ppu { pal: Pal { bgp: data, ..p.pal }, ..p }).byte_at(0xff47) == data,
        (Ppu { pal: Pal { obp0: data, ..p.pal }, ..p }).byte_at(0xff48) == data,
        (Ppu { pal: Pal { obp1: data, ..p.pal }, ..p }).byte_at(0xff49) == data,
{
}

} // verus!
