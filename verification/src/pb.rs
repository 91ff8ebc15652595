//! The single-bar engine: progress state, the refresh-rate gate, and the
//! composition of one fully rendered line per draw.
//!
//! Every state change is specified against a ghost model of the bar
//! (`BarModel`), which includes the sequence of payloads the sink has
//! received. Wall-clock readings enter the engine as plain nanosecond
//! values: the `*_at` methods take the reading as an argument and have
//! exact contracts; the clock-reading convenience methods promise the same
//! transition for some reading.

use vstd::prelude::*;

use crate::numfmt::{chars_to_string, push_all, push_repeat, spec_repeat, str_chars};
use crate::render::{
    push_bar_box, push_counter_box, push_percent_box, push_speed_box, push_time_left_box,
    spec_bar_box, spec_counter_box, spec_percent_box, spec_speed_box, spec_time_left_box, Units,
};
use crate::sink::ProgressSink;

verus! {

#[verifier::external_type_specification]
#[verifier::external_body]
pub struct ExInstant(std::time::Instant);

/// Relies on `std::time::Instant::now`: an opaque reading of the monotonic
/// clock, used only as the anchor that later elapsed times refer to.
pub assume_specification[ std::time::Instant::now ]() -> std::time::Instant;

/// Relies on `Instant::elapsed`: the time since this reading was taken.
pub assume_specification[ std::time::Instant::elapsed ](
    i: &std::time::Instant,
) -> std::time::Duration;

/// Relies on `Duration::as_nanos`: the interval as its total count of
/// nanoseconds.
pub assume_specification[ core::time::Duration::as_nanos ](d: &std::time::Duration) -> u128;

/// The furthest into the past that backdating the refresh gate can reach;
/// far below any reachable clock reading, so backdating is exact in every
/// run that matters while staying free of overflow.
pub const LAST_REFRESH_FLOOR: i128 = -0x10000000000000000000000000;

/// The ghost model of a bar: its counters, configuration, timing state,
/// and everything its sink has been handed so far.
pub ghost struct BarModel {
    pub total: u64,
    pub current: u64,
    pub start_ns: int,
    pub last_refresh_ns: int,
    pub max_refresh_ns: Option<u64>,
    pub units: Units,
    pub bar_start: char,
    pub bar_current: char,
    pub bar_current_n: char,
    pub bar_remain: char,
    pub bar_end: char,
    pub tick: Seq<char>,
    pub tick_state: nat,
    pub width: Option<usize>,
    pub message: Seq<char>,
    pub is_finish: bool,
    pub is_multibar: bool,
    pub show_bar: bool,
    pub show_speed: bool,
    pub show_percent: bool,
    pub show_counter: bool,
    pub show_time_left: bool,
    pub show_tick: bool,
    pub show_message: bool,
    pub emitted: Seq<Seq<char>>,
}

/// Well-formedness of a bar: a non-empty tick sequence with a valid index,
/// and timing fields inside the range that keeps gate arithmetic exact.
pub open spec fn bar_wf(m: BarModel) -> bool {
    &&& m.tick.len() >= 1
    &&& m.tick_state < m.tick.len()
    &&& 0 <= m.start_ns <= u64::MAX as int
    &&& LAST_REFRESH_FLOOR as int <= m.last_refresh_ns <= u64::MAX as int
}

/// The width a draw lays the line out for: the explicit override when one
/// is set, else the terminal's width, else 80. This build's terminal
/// capability reports no size, so without an override the width is 80.
pub open spec fn spec_bar_width(m: BarModel) -> nat {
    match m.width {
        Some(w) => w as nat,
        None => 80,
    }
}

/// The wall time a draw at reading `now` computes with: the time since the
/// start reading, floored at one nanosecond.
pub open spec fn spec_elapsed(m: BarModel, now: nat) -> nat {
    if now as int - m.start_ns >= 1 {
        (now as int - m.start_ns) as nat
    } else {
        1
    }
}

/// Whether the refresh-rate gate suppresses a draw at reading `now`: a cap
/// is set, less than the cap has passed since the last refresh, and the bar
/// has not reached its total.
pub open spec fn spec_gate_blocks(m: BarModel, now: nat) -> bool {
    match m.max_refresh_ns {
        Some(d) => {
            let since = if now as int - m.last_refresh_ns >= 0 {
                now as int - m.last_refresh_ns
            } else {
                0
            };
            since < d && m.current < m.total
        },
        None => false,
    }
}

/// The prefix of a line: the message, the counter box and the tick box,
/// in that order, each only when its toggle is on.
pub open spec fn spec_prefix(m: BarModel) -> Seq<char> {
    (if m.show_message {
        m.message
    } else {
        Seq::empty()
    }) + (if m.show_counter {
        spec_counter_box(m.current as nat, m.total as nat, m.units)
    } else {
        Seq::empty()
    }) + (if m.show_tick {
        seq![m.tick[m.tick_state as int], ' ']
    } else {
        Seq::empty()
    })
}

/// The suffix of a line: the percent, speed and time-left boxes joined by
/// single spaces and led by one space; a single space when no box is on.
pub open spec fn spec_suffix(m: BarModel, elapsed: nat) -> Seq<char> {
    let s = (if m.show_percent {
        seq![' '] + spec_percent_box(m.current as nat, m.total as nat)
    } else {
        Seq::empty()
    }) + (if m.show_speed {
        seq![' '] + spec_speed_box(m.current as nat, elapsed, m.units)
    } else {
        Seq::empty()
    }) + (if m.show_time_left && m.current > 0 && m.total > m.current {
        seq![' '] + spec_time_left_box(m.current as nat, m.total as nat, elapsed)
    } else {
        Seq::empty()
    });
    if s.len() == 0 {
        seq![' ']
    } else {
        s
    }
}

/// One fully rendered line: a leading carriage return, the prefix, the
/// glyph bar when it fits in the width left over (three columns are
/// reserved for borders and padding), the suffix, and right-padding with
/// spaces up to the width.
pub open spec fn spec_line(m: BarModel, elapsed: nat, width: nat) -> Seq<char> {
    let prefix = spec_prefix(m);
    let suffix = spec_suffix(m, elapsed);
    let p = prefix.len() + suffix.len() + 3;
    let bar = if m.show_bar && p < width {
        spec_bar_box(
            m.current as nat,
            m.total as nat,
            (width - p) as nat,
            m.bar_start,
            m.bar_current,
            m.bar_current_n,
            m.bar_remain,
            m.bar_end,
        )
    } else {
        Seq::empty()
    };
    let body = prefix + bar + suffix;
    let padded = if body.len() < width {
        body + spec_repeat(' ', (width - body.len()) as nat)
    } else {
        body
    };
    seq!['\r'] + padded
}

/// The tick index after a draw: advanced by one, clamped at the last glyph.
pub open spec fn spec_tick_next(m: BarModel) -> nat {
    if m.tick_state + 1 < m.tick.len() {
        m.tick_state + 1
    } else {
        (m.tick.len() - 1) as nat
    }
}

/// One unconditional draw at reading `now`: the line rendered from the
/// current state is emitted, the refresh gate is re-armed at `now`, and the
/// tick advances.
pub open spec fn spec_frame_step(pre: BarModel, post: BarModel, now: nat) -> bool {
    post == BarModel {
        last_refresh_ns: now as int,
        tick_state: spec_tick_next(pre),
        emitted: pre.emitted.push(spec_line(pre, spec_elapsed(pre, now), spec_bar_width(pre))),
        ..pre
    }
}

/// One draw attempt at reading `now`: suppressed by the refresh-rate gate,
/// or a full frame.
pub open spec fn spec_draw_step(pre: BarModel, post: BarModel, now: nat) -> bool {
    if spec_gate_blocks(pre, now) {
        post == pre
    } else {
        spec_frame_step(pre, post, now)
    }
}

/// Saturating addition on the progress counter.
pub open spec fn spec_sat_add(a: u64, b: u64) -> u64 {
    if a + b > u64::MAX {
        u64::MAX
    } else {
        (a + b) as u64
    }
}

/// The transition of `add_at`: the counter grows by `i` (saturating), then
/// one draw attempt happens at reading `now`.
pub open spec fn spec_add_step(pre: BarModel, post: BarModel, i: u64, now: nat) -> bool {
    spec_draw_step(BarModel { current: spec_sat_add(pre.current, i), ..pre }, post, now)
}

/// The transition of `set_at`: the counter becomes `v`, then one draw
/// attempt happens at reading `now`.
pub open spec fn spec_set_step(pre: BarModel, post: BarModel, v: u64, now: nat) -> bool {
    spec_draw_step(BarModel { current: v, ..pre }, post, now)
}

/// The transition of `finish_at`: a no-op when already finished; else the
/// counter is forced to the total, one frame is drawn regardless of the
/// refresh cap, the empty done sentinel follows it, and the bar enters its
/// terminal state.
pub open spec fn spec_finish_step(pre: BarModel, post: BarModel, now: nat) -> bool {
    if pre.is_finish {
        post == pre
    } else {
        let cur = if pre.current < pre.total {
            pre.total
        } else {
            pre.current
        };
        let capped = BarModel { current: cur, ..pre };
        post == BarModel {
            current: cur,
            is_finish: true,
            last_refresh_ns: now as int,
            tick_state: spec_tick_next(pre),
            emitted: pre.emitted.push(
                spec_line(capped, spec_elapsed(capped, now), spec_bar_width(capped)),
            ).push(Seq::empty()),
            ..pre
        }
    }
}

/// The transition of `reset_start_time`: the start of the elapsed-time
/// measurement becomes the clock reading `now`.
pub open spec fn spec_reset_start_step(pre: BarModel, post: BarModel, now: nat) -> bool {
    post == BarModel { start_ns: now as int, ..pre }
}

/// The transition of `set_max_refresh_nanos`: the cap is stored and, when
/// one is set, the last-refresh mark is backdated by it (saturating at the
/// floor), so the next draw is never blocked by a rate set just now.
pub open spec fn spec_set_rate_step(pre: BarModel, post: BarModel, w: Option<u64>) -> bool {
    post == BarModel {
        max_refresh_ns: w,
        last_refresh_ns: match w {
            Some(d) => if pre.last_refresh_ns - d >= LAST_REFRESH_FLOOR as int {
                pre.last_refresh_ns - d
            } else {
                LAST_REFRESH_FLOOR as int
            },
            None => pre.last_refresh_ns,
        },
        ..pre
    }
}

/// The model of a fresh bar over `total`: every display box on except the
/// tick, the default glyph set `[=>-]`, the default tick set `\|/-`, no
/// width override, no refresh cap, and timing anchored at a clock reading
/// of zero.
pub open spec fn spec_fresh_bar(total: u64, emitted: Seq<Seq<char>>) -> BarModel {
    BarModel {
        total: total,
        current: 0,
        start_ns: 0,
        last_refresh_ns: 0,
        max_refresh_ns: None::<u64>,
        units: Units::Default,
        bar_start: '[',
        bar_current: '=',
        bar_current_n: '>',
        bar_remain: '-',
        bar_end: ']',
        tick: seq!['\\', '|', '/', '-'],
        tick_state: 0,
        width: None::<usize>,
        message: Seq::<char>::empty(),
        is_finish: false,
        is_multibar: false,
        show_bar: true,
        show_speed: true,
        show_percent: true,
        show_counter: true,
        show_time_left: true,
        show_tick: false,
        show_message: true,
        emitted: emitted,
    }
}

/// A terminal progress bar writing through the sink `T`.
pub struct ProgressBar<T> {
    pub total: u64,
    pub current: u64,
    pub start_ns: i128,
    pub last_refresh_ns: i128,
    pub max_refresh_ns: Option<u64>,
    pub units: Units,
    pub bar_start: char,
    pub bar_current: char,
    pub bar_current_n: char,
    pub bar_remain: char,
    pub bar_end: char,
    pub tick: Vec<char>,
    pub tick_state: usize,
    pub width: Option<usize>,
    pub message: Vec<char>,
    pub is_finish: bool,
    pub is_multibar: bool,
    pub show_bar: bool,
    pub show_speed: bool,
    pub show_percent: bool,
    pub show_counter: bool,
    pub show_time_left: bool,
    pub show_tick: bool,
    pub show_message: bool,
    pub clock: std::time::Instant,
    pub handle: T,
}

impl<T: ProgressSink> ProgressBar<T> {
    /// The ghost model this bar's contracts speak of.
    pub open spec fn model(&self) -> BarModel {
        BarModel {
            total: self.total,
            current: self.current,
            start_ns: self.start_ns as int,
            last_refresh_ns: self.last_refresh_ns as int,
            max_refresh_ns: self.max_refresh_ns,
            units: self.units,
            bar_start: self.bar_start,
            bar_current: self.bar_current,
            bar_current_n: self.bar_current_n,
            bar_remain: self.bar_remain,
            bar_end: self.bar_end,
            tick: self.tick@,
            tick_state: self.tick_state as nat,
            width: self.width,
            message: self.message@,
            is_finish: self.is_finish,
            is_multibar: self.is_multibar,
            show_bar: self.show_bar,
            show_speed: self.show_speed,
            show_percent: self.show_percent,
            show_counter: self.show_counter,
            show_time_left: self.show_time_left,
            show_tick: self.show_tick,
            show_message: self.show_message,
            emitted: self.handle.emitted(),
        }
    }

    /// Well-formedness of this bar.
    pub open spec fn wf(&self) -> bool {
        bar_wf(self.model())
    }

    /// A fresh bar over `total` writing through `handle`: every display box
    /// on except the tick, the default glyph set `[=>-]`, the default tick
    /// set `\|/-`, no width override, no refresh cap, and timing anchored
    /// at a clock reading of zero.
    pub fn on(handle: T, total: u64) -> (r: ProgressBar<T>)
        ensures
            r.wf(),
            r.model() == spec_fresh_bar(total, handle.emitted()),
            r.handle == handle,
    {
        let mut tick: Vec<char> = Vec::new();
        tick.push('\\');
        tick.push('|');
        tick.push('/');
        tick.push('-');
        assert(tick@ =~= seq!['\\', '|', '/', '-']);
        let r = ProgressBar {
            total,
            current: 0,
            start_ns: 0,
            last_refresh_ns: 0,
            max_refresh_ns: None,
            units: Units::Default,
            bar_start: '[',
            bar_current: '=',
            bar_current_n: '>',
            bar_remain: '-',
            bar_end: ']',
            tick,
            tick_state: 0,
            width: None,
            message: Vec::new(),
            is_finish: false,
            is_multibar: false,
            show_bar: true,
            show_speed: true,
            show_percent: true,
            show_counter: true,
            show_time_left: true,
            show_tick: false,
            show_message: true,
            clock: std::time::Instant::now(),
            handle,
        };
        assert(r.model().message =~= Seq::<char>::empty());
        r
    }

    /// The clock reading the convenience methods draw with: nanoseconds
    /// since this bar's anchor, saturating at the largest representable
    /// reading.
    fn read_clock(&self) -> u64 {
        let e: u128 = self.clock.elapsed().as_nanos();
        if e > u64::MAX as u128 {
            u64::MAX
        } else {
            e as u64
        }
    }

    /// Set a custom glyph format, five characters ordered start, fill,
    /// leading edge, remainder, end; shorter input is silently ignored and
    /// the previous glyphs are retained.
    pub fn format(&mut self, fmt: &str)
        ensures
            final(self).model() == (if fmt@.len() >= 5 {
                BarModel {
                    bar_start: fmt@[0],
                    bar_current: fmt@[1],
                    bar_current_n: fmt@[2],
                    bar_remain: fmt@[3],
                    bar_end: fmt@[4],
                    ..old(self).model()
                }
            } else {
                old(self).model()
            }),
    {
        let chars = str_chars(fmt);
        if chars.len() >= 5 {
            self.bar_start = chars[0];
            self.bar_current = chars[1];
            self.bar_current_n = chars[2];
            self.bar_remain = chars[3];
            self.bar_end = chars[4];
        }
    }

    /// Replace the tick glyph sequence; an input other than the default
    /// `\|/-` also turns the tick box on. Empty input is silently ignored.
    /// The tick index is clamped into the new sequence.
    pub fn tick_format(&mut self, tick_fmt: &str)
        requires
            old(self).wf(),
        ensures
            final(self).wf(),
            final(self).model() == (if tick_fmt@.len() == 0 {
                old(self).model()
            } else {
                BarModel {
                    tick: tick_fmt@,
                    tick_state: if old(self).model().tick_state < tick_fmt@.len() {
                        old(self).model().tick_state
                    } else {
                        (tick_fmt@.len() - 1) as nat
                    },
                    show_tick: old(self).show_tick || tick_fmt@ != seq!['\\', '|', '/', '-'],
                    ..old(self).model()
                }
            }),
    {
        let chars = str_chars(tick_fmt);
        if chars.len() == 0 {
            return ;
        }
        let is_default = chars.len() == 4 && chars[0] == '\\' && chars[1] == '|' && chars[2]
            == '/' && chars[3] == '-';
        proof {
            if is_default {
                assert(chars@ =~= seq!['\\', '|', '/', '-']);
            }
            if chars@ == seq!['\\', '|', '/', '-'] {
                assert(chars@.len() == 4);
                assert(chars@[0] == '\\' && chars@[1] == '|' && chars@[2] == '/' && chars@[3]
                    == '-');
            }
        }
        if !is_default {
            self.show_tick = true;
        }
        if self.tick_state >= chars.len() {
            self.tick_state = chars.len() - 1;
        }
        self.tick = chars;
    }

    /// Set an explicit width in columns, or `None` to fall back to the
    /// terminal's width or 80.
    pub fn set_width(&mut self, w: Option<usize>)
        ensures
            final(self).model() == (BarModel { width: w, ..old(self).model() }),
    {
        self.width = w;
    }

    /// Set the numeric formatting of the speed and counter boxes.
    pub fn set_units(&mut self, u: Units)
        ensures
            final(self).model() == (BarModel { units: u, ..old(self).model() }),
    {
        self.units = u;
    }

    /// Set the refresh-rate cap in nanoseconds, or `None` for none; setting
    /// a cap backdates the last-refresh mark by it, so the next draw is
    /// never blocked by a rate set just now.
    pub fn set_max_refresh_nanos(&mut self, w: Option<u64>)
        requires
            old(self).wf(),
        ensures
            final(self).wf(),
            spec_set_rate_step(old(self).model(), final(self).model(), w),
    {
        self.max_refresh_ns = w;
        if let Some(d) = w {
            let backdated: i128 = self.last_refresh_ns - d as i128;
            if backdated >= LAST_REFRESH_FLOOR {
                self.last_refresh_ns = backdated;
            } else {
                self.last_refresh_ns = LAST_REFRESH_FLOOR;
            }
        }
    }

    /// Set the refresh-rate cap as a duration, or `None` for none. The
    /// stored cap is the duration's nanoseconds, saturated to the widest
    /// representable reading.
    pub fn set_max_refresh_rate(&mut self, w: Option<std::time::Duration>)
        requires
            old(self).wf(),
        ensures
            final(self).wf(),
            (w is None) ==> spec_set_rate_step(old(self).model(), final(self).model(), None),
            (w is Some) ==> (exists|d: u64|
                spec_set_rate_step(old(self).model(), final(self).model(), Some(d))),
    {
        match w {
            None => self.set_max_refresh_nanos(None),
            Some(dur) => {
                let n: u128 = dur.as_nanos();
                let d: u64 = if n > u64::MAX as u128 {
                    u64::MAX
                } else {
                    n as u64
                };
                self.set_max_refresh_nanos(Some(d));
                assert(spec_set_rate_step(old(self).model(), final(self).model(), Some(d)));
            },
        }
    }

    /// Reset the start of the elapsed-time measurement to now.
    pub fn reset_start_time(&mut self)
        requires
            old(self).wf(),
        ensures
            final(self).wf(),
            (exists|now: nat| spec_reset_start_step(old(self).model(), final(self).model(), now)),
    {
        let now = self.read_clock();
        self.start_ns = now as i128;
        assert(spec_reset_start_step(old(self).model(), final(self).model(), now as nat));
    }

    /// Set the message shown in the prefix; call with `""` to stop showing
    /// one. Line breaks are replaced with spaces, so the message stays on
    /// one line.
    pub fn message(&mut self, message: &str)
        ensures
            final(self).model() == (BarModel {
                message: final(self).model().message,
                ..old(self).model()
            }),
            final(self).model().message == message@.map_values(
                (|c: char| if c == '\n' || c == '\r' {
                    ' '
                } else {
                    c
                }),
            ),
    {
        let chars = str_chars(message);
        let mut out: Vec<char> = Vec::new();
        let mut i: usize = 0;
        while i < chars.len()
            invariant
                i <= chars@.len(),
                out@.len() == i,
                forall|j: int|
                    0 <= j < i ==> out@[j] == (if chars@[j] == '\n' || chars@[j] == '\r' {
                        ' '
                    } else {
                        chars@[j]
                    }),
            decreases chars@.len() - i,
        {
            let c = chars[i];
            if c == '\n' || c == '\r' {
                out.push(' ');
            } else {
                out.push(c);
            }
            i = i + 1;
        }
        self.message = out;
        assert(final(self).model().message =~= message@.map_values(
            |c: char| if c == '\n' || c == '\r' {
                ' '
            } else {
                c
            },
        ));
    }

    /// The width a draw lays the line out for.
    fn term_width(&self) -> (r: usize)
        ensures
            r as nat == spec_bar_width(self.model()),
    {
        match self.width {
            Some(w) => w,
            None => {
                if self.is_multibar {
                    80
                } else {
                    match crate::tty::terminal_size() {
                        Some((w, _h)) => w.0 as usize,
                        None => 80,
                    }
                }
            },
        }
    }

    /// The prefix of the line for the current state.
    fn build_prefix(&self) -> (r: Vec<char>)
        requires
            self.wf(),
        ensures
            r@ == spec_prefix(self.model()),
    {
        let mut prefix: Vec<char> = Vec::new();
        if self.show_message {
            push_all(&mut prefix, &self.message);
        }
        if self.show_counter {
            push_counter_box(&mut prefix, self.current, self.total, self.units);
        }
        if self.show_tick {
            prefix.push(self.tick[self.tick_state]);
            prefix.push(' ');
        }
        assert(prefix@ =~= spec_prefix(self.model()));
        prefix
    }

    /// The suffix of the line for the current state at the given elapsed
    /// time.
    fn build_suffix(&self, elapsed_ns: u64) -> (r: Vec<char>)
        requires
            elapsed_ns >= 1,
        ensures
            r@ == spec_suffix(self.model(), elapsed_ns as nat),
    {
        let mut suffix: Vec<char> = Vec::new();
        if self.show_percent {
            suffix.push(' ');
            push_percent_box(&mut suffix, self.current, self.total);
        }
        if self.show_speed {
            suffix.push(' ');
            push_speed_box(&mut suffix, self.current, elapsed_ns, self.units);
        }
        if self.show_time_left && self.current > 0 && self.total > self.current {
            suffix.push(' ');
            push_time_left_box(&mut suffix, self.current, self.total, elapsed_ns);
        }
        if suffix.len() == 0 {
            suffix.push(' ');
        }
        assert(suffix@ =~= spec_suffix(self.model(), elapsed_ns as nat));
        suffix
    }

    /// Render the line for the current state at the given elapsed time and
    /// width.
    #[verifier::rlimit(100)]
    fn render_line(&self, elapsed_ns: u64, width: usize) -> (r: String)
        requires
            self.wf(),
            elapsed_ns >= 1,
        ensures
            r@ == spec_line(self.model(), elapsed_ns as nat, width as nat),
    {
        let ghost m = self.model();
        let prefix = self.build_prefix();
        let suffix = self.build_suffix(elapsed_ns);
        let ghost pre_s = spec_prefix(m);
        let ghost suf_s = spec_suffix(m, elapsed_ns as nat);
        let ghost p = pre_s.len() + suf_s.len() + 3;
        let ghost bar_s: Seq<char> = if m.show_bar && p < width as nat {
            spec_bar_box(
                m.current as nat,
                m.total as nat,
                (width as nat - p) as nat,
                m.bar_start,
                m.bar_current,
                m.bar_current_n,
                m.bar_remain,
                m.bar_end,
            )
        } else {
            Seq::empty()
        };
        let mut out: Vec<char> = Vec::new();
        out.push('\r');
        push_all(&mut out, &prefix);
        let p128: u128 = prefix.len() as u128 + suffix.len() as u128 + 3;
        if self.show_bar && p128 < width as u128 {
            let size: usize = width - (prefix.len() + suffix.len() + 3);
            assert(size as nat == (width as nat - p) as nat);
            push_bar_box(
                &mut out,
                self.current,
                self.total,
                size,
                self.bar_start,
                self.bar_current,
                self.bar_current_n,
                self.bar_remain,
                self.bar_end,
            );
        }
        assert(out@ =~= seq!['\r'] + pre_s + bar_s);
        push_all(&mut out, &suffix);
        let ghost body = pre_s + bar_s + suf_s;
        assert(out@ =~= seq!['\r'] + body);
        assert(out@.len() == 1 + body.len());
        let body_len: usize = out.len() - 1;
        if body_len < width {
            push_repeat(&mut out, ' ', width - body_len);
            assert(out@ =~= seq!['\r'] + (body + spec_repeat(' ', (width - body.len()) as nat)));
        }
        assert(out@ =~= spec_line(m, elapsed_ns as nat, width as nat));
        chars_to_string(&out)
    }

    /// Emit one frame at reading `now`, unconditionally: render, write to
    /// the sink, re-arm the refresh gate and advance the tick.
    fn emit_frame(&mut self, now: u64)
        requires
            old(self).wf(),
        ensures
            final(self).wf(),
            spec_frame_step(old(self).model(), final(self).model(), now as nat),
    {
        let width = self.term_width();
        let e_int: i128 = now as i128 - self.start_ns;
        let elapsed: u64 = if e_int >= 1 {
            e_int as u64
        } else {
            1
        };
        assert(elapsed as nat == spec_elapsed(self.model(), now as nat));
        let line = self.render_line(elapsed, width);
        self.handle.sink_write(line.as_str());
        self.last_refresh_ns = now as i128;
        let n = self.tick.len();
        assert(self.tick_state < n);
        if self.tick_state + 1 < n {
            self.tick_state = self.tick_state + 1;
        } else {
            self.tick_state = n - 1;
        }
    }

    /// One draw attempt at reading `now`, honoring the refresh-rate gate.
    fn draw_at(&mut self, now: u64)
        requires
            old(self).wf(),
        ensures
            final(self).wf(),
            spec_draw_step(old(self).model(), final(self).model(), now as nat),
    {
        let blocked: bool = match self.max_refresh_ns {
            Some(d) => {
                let diff: i128 = now as i128 - self.last_refresh_ns;
                let since: i128 = if diff >= 0 {
                    diff
                } else {
                    0
                };
                since < d as i128 && self.current < self.total
            },
            None => false,
        };
        if !blocked {
            self.emit_frame(now);
        }
    }

    /// Advance the counter by `i` (saturating) and attempt one draw at the
    /// clock reading `now_ns`; the new counter value is returned.
    pub fn add_at(&mut self, i: u64, now_ns: u64) -> (r: u64)
        requires
            old(self).wf(),
        ensures
            final(self).wf(),
            spec_add_step(old(self).model(), final(self).model(), i, now_ns as nat),
            r == final(self).current,
    {
        if i > u64::MAX - self.current {
            self.current = u64::MAX;
        } else {
            self.current = self.current + i;
        }
        self.draw_at(now_ns);
        self.current
    }

    /// Advance the counter by `i` (saturating) and attempt one draw now.
    pub fn add(&mut self, i: u64) -> (r: u64)
        requires
            old(self).wf(),
        ensures
            final(self).wf(),
            (exists|now: nat| spec_add_step(old(self).model(), final(self).model(), i, now)),
            r == final(self).current,
    {
        let now = self.read_clock();
        let r = self.add_at(i, now);
        assert(spec_add_step(old(self).model(), final(self).model(), i, now as nat));
        r
    }

    /// Advance the counter by one and attempt one draw now.
    pub fn inc(&mut self) -> (r: u64)
        requires
            old(self).wf(),
        ensures
            final(self).wf(),
            (exists|now: nat| spec_add_step(old(self).model(), final(self).model(), 1, now)),
            r == final(self).current,
    {
        self.add(1)
    }

    /// Set the counter to `value` and attempt one draw at the clock
    /// reading `now_ns`; the new counter value is returned.
    pub fn set_at(&mut self, value: u64, now_ns: u64) -> (r: u64)
        requires
            old(self).wf(),
        ensures
            final(self).wf(),
            spec_set_step(old(self).model(), final(self).model(), value, now_ns as nat),
            r == final(self).current,
    {
        self.current = value;
        self.draw_at(now_ns);
        self.current
    }

    /// Set the counter to `value` and attempt one draw now.
    pub fn set(&mut self, value: u64) -> (r: u64)
        requires
            old(self).wf(),
        ensures
            final(self).wf(),
            (exists|now: nat| spec_set_step(old(self).model(), final(self).model(), value, now)),
            r == final(self).current,
    {
        let now = self.read_clock();
        let r = self.set_at(value, now);
        assert(spec_set_step(old(self).model(), final(self).model(), value, now as nat));
        r
    }

    /// Finish the bar at the clock reading `now_ns`: an explicit no-op when
    /// already finished; else the counter is forced to the total, one final
    /// frame is drawn past the refresh gate, and the empty done sentinel is
    /// written after it.
    pub fn finish_at(&mut self, now_ns: u64)
        requires
            old(self).wf(),
        ensures
            final(self).wf(),
            spec_finish_step(old(self).model(), final(self).model(), now_ns as nat),
    {
        if self.is_finish {
            return ;
        }
        if self.current < self.total {
            self.current = self.total;
        }
        self.emit_frame(now_ns);
        self.handle.sink_write("");
        self.is_finish = true;
        proof {
            reveal_strlit("");
            assert(""@ =~= Seq::<char>::empty());
        }
    }

    /// Finish the bar now.
    pub fn finish(&mut self)
        requires
            old(self).wf(),
        ensures
            final(self).wf(),
            (exists|now: nat| spec_finish_step(old(self).model(), final(self).model(), now)),
    {
        let now = self.read_clock();
        self.finish_at(now);
        assert(spec_finish_step(old(self).model(), final(self).model(), now as nat));
    }
}

impl ProgressBar<crate::sink::StdoutSink> {
    /// A fresh bar over `total` writing to standard output.
    pub fn new(total: u64) -> (r: ProgressBar<crate::sink::StdoutSink>)
        ensures
            r.wf(),
            r.model() == spec_fresh_bar(total, Seq::<Seq<char>>::empty()),
    {
        ProgressBar::on(crate::sink::StdoutSink::new(), total)
    }
}

/// Monotonic redraw suppression: with a refresh cap `d` set, when one
/// update draws a frame at reading `t1`, a second update at a reading less
/// than `d` later — neither update completing the total — is suppressed,
/// so the two updates together emit exactly one frame.
pub proof fn lemma_redraw_suppression(
    pre: BarModel,
    mid: BarModel,
    post: BarModel,
    i1: u64,
    i2: u64,
    t1: nat,
    t2: nat,
    d: u64,
)
    requires
        bar_wf(pre),
        pre.max_refresh_ns == Some(d),
        !spec_gate_blocks(BarModel { current: spec_sat_add(pre.current, i1), ..pre }, t1),
        spec_add_step(pre, mid, i1, t1),
        spec_add_step(mid, post, i2, t2),
        t1 <= t2 < t1 + d,
        post.current < post.total,
    ensures
        post.emitted == pre.emitted.push(
            spec_line(
                BarModel { current: spec_sat_add(pre.current, i1), ..pre },
                spec_elapsed(pre, t1),
                spec_bar_width(pre),
            ),
        ),
        post.emitted.len() == pre.emitted.len() + 1,
{
    let bumped1 = BarModel { current: spec_sat_add(pre.current, i1), ..pre };
    assert(spec_frame_step(bumped1, mid, t1));
    let bumped2 = BarModel { current: spec_sat_add(mid.current, i2), ..mid };
    assert(bumped2.last_refresh_ns == t1 as int);
    assert(spec_gate_blocks(bumped2, t2));
    assert(post == bumped2);
}

/// Finish idempotence: finishing a bar that already stands at its total
/// emits exactly one forced final frame followed by exactly one done
/// sentinel, and a second finish call changes nothing — in particular it
/// sends no second sentinel.
pub proof fn lemma_finish_idempotent(pre: BarModel, mid: BarModel, post: BarModel, t1: nat, t2: nat)
    requires
        bar_wf(pre),
        !pre.is_finish,
        pre.current == pre.total,
        spec_finish_step(pre, mid, t1),
        spec_finish_step(mid, post, t2),
    ensures
        mid.is_finish,
        post == mid,
        post.emitted == pre.emitted.push(
            spec_line(pre, spec_elapsed(pre, t1), spec_bar_width(pre)),
        ).push(Seq::<char>::empty()),
        spec_line(pre, spec_elapsed(pre, t1), spec_bar_width(pre)).len() > 0,
{
    let capped = BarModel { current: pre.current, ..pre };
    assert(capped == pre);
}

} // verus!
