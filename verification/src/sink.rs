//! Sinks that rendered lines are written through.
//!
//! A sink models everything handed to it as a ghost sequence of payloads,
//! so a bar's contract can say exactly which frames one operation emitted.
//! `MemSink` keeps the payloads concretely; `StdoutSink` hands each one to
//! the process's standard output, unbuffered, and keeps only the ghost log.

use vstd::prelude::*;

use std::io::Write;

verus! {

/// A destination for rendered lines. Writes never block on the consumer
/// and a failed write is not retried: a frame that cannot be delivered is
/// simply gone, and the next draw supersedes it.
pub trait ProgressSink {
    /// Every payload written to this sink so far, oldest first.
    spec fn emitted(&self) -> Seq<Seq<char>>;

    /// Hand one payload to the sink.
    fn sink_write(&mut self, buf: &str)
        ensures
            final(self).emitted() == old(self).emitted().push(buf@),
    ;
}

/// A sink that keeps every payload in memory, for capture and inspection.
pub struct MemSink {
    /// The payloads written so far, oldest first.
    pub lines: Vec<String>,
}

impl MemSink {
    /// An empty sink.
    pub fn new() -> (r: MemSink)
        ensures
            r.emitted() == Seq::<Seq<char>>::empty(),
            r.lines@.len() == 0,
    {
        MemSink { lines: Vec::new() }
    }
}

impl ProgressSink for MemSink {
    open spec fn emitted(&self) -> Seq<Seq<char>> {
        self.lines@.map_values(|s: String| s@)
    }

    fn sink_write(&mut self, buf: &str) {
        self.lines.push(String::from_str(buf));
        assert(final(self).emitted() =~= old(self).emitted().push(buf@));
    }
}

#[verifier::external_type_specification]
#[verifier::external_body]
pub struct ExStdout(std::io::Stdout);

/// Relies on `std::io::stdout`: acquires the process-wide handle to the
/// standard output stream.
#[verifier::external_body]
fn stdout_handle() -> std::io::Stdout {
    std::io::stdout()
}

/// Relies on `io::Write::write_all` for `Stdout`: writes the whole buffer.
/// A failed terminal write is dropped, not retried.
#[verifier::external_body]
fn stdout_write_all(h: &mut std::io::Stdout, b: &[u8]) {
    let _ = h.write_all(b);
}

/// Relies on `io::Write::flush` for `Stdout`: pushes the payload out at
/// once, so no frame sits in a buffer between redraws.
#[verifier::external_body]
fn stdout_flush(h: &mut std::io::Stdout) {
    let _ = h.flush();
}

/// A sink that writes each payload to standard output and flushes at once.
pub struct StdoutSink {
    out: std::io::Stdout,
    written: Ghost<Seq<Seq<char>>>,
}

impl StdoutSink {
    /// A sink on the process's standard output with an empty log.
    pub fn new() -> (r: StdoutSink)
        ensures
            r.emitted() == Seq::<Seq<char>>::empty(),
    {
        StdoutSink { out: stdout_handle(), written: Ghost(Seq::empty()) }
    }
}

impl ProgressSink for StdoutSink {
    closed spec fn emitted(&self) -> Seq<Seq<char>> {
        self.written@
    }

    fn sink_write(&mut self, buf: &str) {
        stdout_write_all(&mut self.out, buf.as_bytes());
        stdout_flush(&mut self.out);
        self.written = Ghost(self.written@.push(buf@));
    }
}

} // verus!
