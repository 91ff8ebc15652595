//! Terminal progress bars: a single-bar rendering engine and a multi-bar
//! coordinator that serializes redraws from many workers onto one screen
//! region.

use vstd::prelude::*;
use vstd::std_specs::iter::IteratorSpec;

mod multi;
mod numfmt;
mod pb;
mod render;
mod sink;
mod tty;

pub use multi::{CoordState, MultiBar, Pipe, WriteMsg};
pub use numfmt::kb_fmt;
pub use pb::{BarModel, ProgressBar};
pub use render::Units;
pub use sink::{MemSink, ProgressSink, StdoutSink};
pub use tty::{move_cursor_up, terminal_size, Height, Width};

verus! {

/// Relies on `Iterator::size_hint`: a lower bound on the remaining length,
/// used only as the total a wrapping bar counts towards. It is a hint: no
/// relation to the items actually yielded is assumed.
#[verifier::external_body]
fn size_hint_lower<I: core::iter::Iterator>(iter: &I) -> usize {
    iter.size_hint().0
}

/// An iterator paired with a progress bar: each item drawn from the inner
/// iterator advances the bar by one. The bar's total is the inner
/// iterator's size hint at creation.
pub struct PbIter<T, I> {
    pub iter: I,
    pub progress_bar: ProgressBar<T>,
}

impl<T: ProgressSink, I: core::iter::Iterator> PbIter<T, I> {
    /// Wrap `iter`, with progress written through `handle`.
    pub fn on(handle: T, iter: I) -> (r: PbIter<T, I>)
        ensures
            r.iter == iter,
            r.progress_bar.wf(),
            (exists|n: u64|
                r.progress_bar.model() == pb::spec_fresh_bar(n, handle.emitted())),
            r.progress_bar.current == 0,
            r.progress_bar.handle == handle,
    {
        let size = size_hint_lower(&iter);
        let progress_bar = ProgressBar::on(handle, size as u64);
        assert(progress_bar.model() == pb::spec_fresh_bar(size as u64, handle.emitted()));
        PbIter { iter, progress_bar }
    }

    /// The next item of the inner iterator; drawing one advances the bar
    /// by one and attempts a redraw. For an iterator that obeys the
    /// standard library's iterator laws, the item returned is exactly the
    /// inner iterator's next one: progress reporting never alters, drops,
    /// duplicates or reorders items.
    pub fn next(&mut self) -> (r: Option<I::Item>)
        requires
            old(self).progress_bar.wf(),
        ensures
            final(self).progress_bar.wf(),
            (r is Some) ==> (exists|now: nat|
                pb::spec_add_step(
                    old(self).progress_bar.model(),
                    final(self).progress_bar.model(),
                    1,
                    now,
                )),
            (r is None) ==> final(self).progress_bar == old(self).progress_bar,
            final(self).iter.obeys_prophetic_iter_laws() == old(
                self,
            ).iter.obeys_prophetic_iter_laws(),
            old(self).iter.obeys_prophetic_iter_laws() ==> ({
                if old(self).iter.remaining().len() > 0 {
                    &&& r == Some(old(self).iter.remaining()[0])
                    &&& final(self).iter.remaining() == old(self).iter.remaining().drop_first()
                } else {
                    &&& (r is None)
                    &&& final(self).iter.remaining() == old(self).iter.remaining()
                }
            }),
    {
        match self.iter.next() {
            Some(i) => {
                self.progress_bar.inc();
                Some(i)
            },
            None => None,
        }
    }
}

impl<I: core::iter::Iterator> PbIter<StdoutSink, I> {
    /// Wrap `iter`, with progress written to standard output.
    pub fn new(iter: I) -> (r: PbIter<StdoutSink, I>)
        ensures
            r.iter == iter,
            r.progress_bar.wf(),
            (exists|n: u64|
                r.progress_bar.model() == pb::spec_fresh_bar(n, Seq::<Seq<char>>::empty())),
            r.progress_bar.current == 0,
    {
        let handle = StdoutSink::new();
        Self::on(handle, iter)
    }
}

} // verus!
