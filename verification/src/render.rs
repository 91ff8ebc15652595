//! The boxes that make up one rendered progress line: percent, speed,
//! time left, counter and the glyph bar itself.
//!
//! Every box is a pure function of the bar's counters, the elapsed wall
//! time in nanoseconds and the configured unit mode; the composition into
//! a full line lives with the bar engine.

use vstd::prelude::*;

use crate::numfmt::{
    push_dec, push_fixed2, push_kb_frac, push_repeat, round_div, spec_dec, spec_fixed2, spec_kb,
    spec_repeat, spec_round_div,
};

verus! {

/// The numeric formatting mode of the speed and counter boxes.
#[derive(Debug, Clone, Copy, PartialEq, Eq, Structural)]
pub enum Units {
    /// Plain numbers.
    Default,
    /// Human-scaled byte sizes.
    Bytes,
}

/// The percent box: `100 * c / t` to two decimals, `0.00` when the total
/// is zero, followed by ` %`.
pub open spec fn spec_percent_box(c: nat, t: nat) -> Seq<char> {
    spec_fixed2(if t == 0 { 0 } else { spec_round_div(10000 * c, t) }) + seq![' ', '%']
}

/// Append the percent box for `c` of `t`.
pub fn push_percent_box(out: &mut Vec<char>, c: u64, t: u64)
    ensures
        final(out)@ == old(out)@ + spec_percent_box(c as nat, t as nat),
{
    let h: u128 = if t == 0 {
        0
    } else {
        round_div(10000 * (c as u128), t as u128)
    };
    push_fixed2(out, h);
    out.push(' ');
    out.push('%');
    assert(final(out)@ =~= old(out)@ + spec_percent_box(c as nat, t as nat));
}

/// The percent box is the true ratio within rounding: writing `h` for the
/// rendered hundredths of a percent, `h * t` differs from `10000 * c` by at
/// most half of `t`; and a zero total always renders as `0.00`.
pub proof fn lemma_percent_within_rounding(c: nat, t: nat)
    ensures
        t > 0 ==> {
            let h = spec_round_div(10000 * c, t);
            &&& spec_percent_box(c, t) == spec_fixed2(h) + seq![' ', '%']
            &&& 2 * (h * t) <= 2 * (10000 * c) + t
            &&& 2 * (10000 * c) <= 2 * (h * t) + t
        },
        t == 0 ==> spec_percent_box(c, t) == spec_fixed2(0) + seq![' ', '%'],
{
    if t > 0 {
        crate::numfmt::lemma_round_div_close(10000 * c, t);
    }
}

/// The speed box: the average rate `c / elapsed` per second, rendered per
/// the unit mode and suffixed `/s`.
pub open spec fn spec_speed_box(c: nat, elapsed_ns: nat, units: Units) -> Seq<char>
    recommends
        elapsed_ns > 0,
{
    match units {
        Units::Default => spec_fixed2(spec_round_div(100 * (c * 1000000000), elapsed_ns))
            + seq!['/', 's'],
        Units::Bytes => spec_kb(c * 1000000000, elapsed_ns) + seq!['/', 's'],
    }
}

/// Append the speed box for `c` units over `elapsed_ns` nanoseconds.
pub fn push_speed_box(out: &mut Vec<char>, c: u64, elapsed_ns: u64, units: Units)
    requires
        elapsed_ns >= 1,
    ensures
        final(out)@ == old(out)@ + spec_speed_box(c as nat, elapsed_ns as nat, units),
{
    let num: u128 = (c as u128) * 1000000000;
    match units {
        Units::Default => {
            push_fixed2(out, round_div(100 * num, elapsed_ns as u128));
        },
        Units::Bytes => {
            push_kb_frac(out, num, elapsed_ns as u128);
        },
    }
    out.push('/');
    out.push('s');
    assert(final(out)@ =~= old(out)@ + spec_speed_box(c as nat, elapsed_ns as nat, units));
}

/// The time-left box: the estimated remaining seconds
/// `(t - c) * elapsed / (c * 1e9)`, rendered as whole seconds when under a
/// minute and as whole minutes otherwise.
pub open spec fn spec_time_left_box(c: nat, t: nat, elapsed_ns: nat) -> Seq<char>
    recommends
        0 < c < t,
{
    let num = ((t - c) as nat) * elapsed_ns;
    let den = c * 1000000000;
    if num < 60 * den {
        spec_dec(spec_round_div(num, den)) + seq!['s']
    } else {
        spec_dec(spec_round_div(num, 60 * den)) + seq!['m']
    }
}

/// Append the time-left box for `c` of `t` after `elapsed_ns` nanoseconds.
pub fn push_time_left_box(out: &mut Vec<char>, c: u64, t: u64, elapsed_ns: u64)
    requires
        0 < c < t,
        elapsed_ns >= 1,
    ensures
        final(out)@ == old(out)@ + spec_time_left_box(c as nat, t as nat, elapsed_ns as nat),
{
    proof {
        assert(((t - c) as u128) * (elapsed_ns as u128) < 0xffffffffffffffffffffffffffffffff)
            by (nonlinear_arith)
            requires
                (t - c) as u128 <= 0xffffffffffffffff,
                elapsed_ns as u128 <= 0xffffffffffffffff,
        ;
    }
    let num: u128 = ((t - c) as u128) * (elapsed_ns as u128);
    let den: u128 = (c as u128) * 1000000000;
    if num < 60 * den {
        push_dec(out, round_div(num, den));
        out.push('s');
    } else {
        push_dec(out, round_div(num, 60 * den));
        out.push('m');
    }
    assert(final(out)@ =~= old(out)@ + spec_time_left_box(c as nat, t as nat, elapsed_ns as nat));
}

/// The counter box: `c / t ` in the unit mode's notation, with a trailing
/// space.
pub open spec fn spec_counter_box(c: nat, t: nat, units: Units) -> Seq<char> {
    match units {
        Units::Default => spec_dec(c) + seq![' ', '/', ' '] + spec_dec(t) + seq![' '],
        Units::Bytes => spec_kb(c, 1) + seq![' ', '/', ' '] + spec_kb(t, 1) + seq![' '],
    }
}

/// Append the counter box for `c` of `t`.
pub fn push_counter_box(out: &mut Vec<char>, c: u64, t: u64, units: Units)
    ensures
        final(out)@ == old(out)@ + spec_counter_box(c as nat, t as nat, units),
{
    match units {
        Units::Default => {
            push_dec(out, c as u128);
            out.push(' ');
            out.push('/');
            out.push(' ');
            push_dec(out, t as u128);
        },
        Units::Bytes => {
            push_kb_frac(out, c as u128, 1);
            out.push(' ');
            out.push('/');
            out.push(' ');
            push_kb_frac(out, t as u128, 1);
        },
    }
    out.push(' ');
    assert(final(out)@ =~= old(out)@ + spec_counter_box(c as nat, t as nat, units));
}

/// The number of filled cells of a bar of `size` cells at `c` of `t`:
/// the ratio rounded up. A zero total with progress claims more cells
/// than exist, which omits the bar.
pub open spec fn spec_curr_count(c: nat, t: nat, size: nat) -> nat {
    if t == 0 {
        if c == 0 {
            0
        } else {
            size + 1
        }
    } else {
        ((c * size + t - 1) as nat) / t
    }
}

/// The glyph bar of `size` cells: a start glyph, the filled cells (with the
/// last filled cell as the leading edge when any cell remains), the
/// remaining cells and an end glyph; empty when the fill would not fit.
pub open spec fn spec_bar_box(
    c: nat,
    t: nat,
    size: nat,
    g_start: char,
    g_fill: char,
    g_lead: char,
    g_remain: char,
    g_end: char,
) -> Seq<char> {
    let curr = spec_curr_count(c, t, size);
    if curr <= size {
        let rema = (size - curr) as nat;
        seq![g_start] + (if rema > 0 && curr > 0 {
            spec_repeat(g_fill, (curr - 1) as nat) + seq![g_lead]
        } else {
            spec_repeat(g_fill, curr)
        }) + spec_repeat(g_remain, rema) + seq![g_end]
    } else {
        Seq::empty()
    }
}

/// Append the glyph bar of `size` cells at `c` of `t`.
pub fn push_bar_box(
    out: &mut Vec<char>,
    c: u64,
    t: u64,
    size: usize,
    g_start: char,
    g_fill: char,
    g_lead: char,
    g_remain: char,
    g_end: char,
)
    ensures
        final(out)@ == old(out)@ + spec_bar_box(
            c as nat,
            t as nat,
            size as nat,
            g_start,
            g_fill,
            g_lead,
            g_remain,
            g_end,
        ),
{
    let ghost target = old(out)@ + spec_bar_box(
        c as nat,
        t as nat,
        size as nat,
        g_start,
        g_fill,
        g_lead,
        g_remain,
        g_end,
    );
    if t == 0 && c > 0 {
        // The ratio is unbounded: the fill cannot fit, the bar is omitted.
        assert(final(out)@ =~= target);
        return ;
    }
    let curr: usize = if t == 0 {
        0
    } else {
        proof {
            assert((c as u128) * (size as u128) + (t as u128) - 1
                < 0xffffffffffffffffffffffffffffffff) by (nonlinear_arith)
                requires
                    c as u128 <= 0xffffffffffffffff,
                    size as u128 <= 0xffffffffffffffff,
                    1 <= t as u128 <= 0xffffffffffffffff,
            ;
        }
        let curr128: u128 = ((c as u128) * (size as u128) + (t as u128) - 1) / (t as u128);
        if curr128 > size as u128 {
            // More filled cells than the bar has: the bar is omitted.
            assert(spec_curr_count(c as nat, t as nat, size as nat) > size as nat);
            assert(final(out)@ =~= target);
            return ;
        }
        curr128 as usize
    };
    let rema: usize = size - curr;
    out.push(g_start);
    if rema > 0 && curr > 0 {
        push_repeat(out, g_fill, curr - 1);
        out.push(g_lead);
    } else {
        push_repeat(out, g_fill, curr);
    }
    push_repeat(out, g_remain, rema);
    out.push(g_end);
    assert(final(out)@ =~= target);
}

/// At zero progress the bar shows only the start glyph, the remainder cells
/// and the end glyph; at full progress (a positive total) it shows the start
/// glyph, all cells filled with the plain fill glyph, and the end glyph.
pub proof fn lemma_bar_round_trip(
    t: nat,
    size: nat,
    g_start: char,
    g_fill: char,
    g_lead: char,
    g_remain: char,
    g_end: char,
)
    requires
        t > 0,
    ensures
        spec_bar_box(0, t, size, g_start, g_fill, g_lead, g_remain, g_end) == seq![g_start]
            + spec_repeat(g_remain, size) + seq![g_end],
        spec_bar_box(t, t, size, g_start, g_fill, g_lead, g_remain, g_end) == seq![g_start]
            + spec_repeat(g_fill, size) + seq![g_end],
{
    assert(spec_curr_count(0, t, size) == 0) by {
        assert(0 * size == 0) by (nonlinear_arith);
        assert(((t - 1) as nat) / t == 0) by (nonlinear_arith)
            requires
                t > 0,
        ;
    }
    assert(spec_curr_count(t, t, size) == size) by {
        assert(((t * size + t - 1) as nat) / t == size) by (nonlinear_arith)
            requires
                t > 0,
        ;
    }
    assert(spec_bar_box(0, t, size, g_start, g_fill, g_lead, g_remain, g_end) =~= seq![g_start]
        + spec_repeat(g_remain, size) + seq![g_end]) by {
        assert(spec_repeat(g_fill, 0) =~= Seq::<char>::empty());
    }
    assert(spec_bar_box(t, t, size, g_start, g_fill, g_lead, g_remain, g_end) =~= seq![g_start]
        + spec_repeat(g_fill, size) + seq![g_end]) by {
        assert(spec_repeat(g_remain, 0) =~= Seq::<char>::empty());
    }
}

} // verus!
