//! Terminal capability primitives: size query and cursor repositioning.
//!
//! This build carries the capability-free variant: no terminal is queried,
//! so the size is unknown and callers fall back to a fixed width, while
//! cursor movement is expressed as the ANSI control sequence `ESC [ n A`.
//! Platform-specific variants (console APIs) live outside the verified
//! library.

use vstd::prelude::*;

use crate::numfmt::{chars_to_string, push_dec, spec_dec};

verus! {

/// A terminal width in columns.
#[derive(Debug)]
pub struct Width(pub u16);

/// A terminal height in rows.
#[derive(Debug)]
pub struct Height(pub u16);

/// The control sequence that moves the cursor up `n` lines: `ESC [ n A`.
pub open spec fn spec_move_cursor_up(n: nat) -> Seq<char> {
    seq!['\u{1b}', '['] + spec_dec(n) + seq!['A']
}

/// The terminal size, when available; this capability-free variant never
/// has one, and callers degrade to their fixed default width.
pub fn terminal_size() -> (r: Option<(Width, Height)>)
    ensures
        r is None,
{
    None
}

/// The control sequence that moves the cursor up `n` lines.
pub fn move_cursor_up(n: usize) -> (r: String)
    ensures
        r@ == spec_move_cursor_up(n as nat),
{
    let mut out: Vec<char> = Vec::new();
    out.push('\u{1b}');
    out.push('[');
    push_dec(&mut out, n as u128);
    out.push('A');
    assert(out@ =~= spec_move_cursor_up(n as nat));
    chars_to_string(&out)
}

} // verus!
