//! The output sink: per-execution-context routing of emitted text, either
//! passed straight through to the process's standard output or captured in
//! a buffer owned by the current case.

use vstd::prelude::*;

verus! {

#[derive(Clone, Copy)]
enum SinkMode {
    Direct,
    Captured,
}

/// Where emitted text goes for one execution context. A direct sink writes
/// to the real standard output; a captured sink accumulates the text for
/// the case that owns it, to be drained once the case has terminated.
pub struct OutputSink {
    mode: SinkMode,
    buffer: String,
}

/// Relies on std::io::Write::write_all on standard output: sends the bytes
/// of the text to the process's real output stream.
#[verifier::external_body]
fn print_direct(text: &str) {
    let _ = std::io::Write::write_all(&mut std::io::stdout(), text.as_bytes());
}

impl OutputSink {
    /// Whether this sink captures rather than passes through.
    pub closed spec fn is_captured(self) -> bool {
        self.mode is Captured
    }

    /// The text captured so far; empty for a direct sink.
    pub closed spec fn captured_text(self) -> Seq<char> {
        self.buffer@
    }

    /// The sink of the default context: text goes to the real output.
    pub fn direct() -> (s: Self)
        ensures
            !s.is_captured(),
            s.captured_text() == Seq::<char>::empty(),
    {
        OutputSink { mode: SinkMode::Direct, buffer: String::new() }
    }

    /// The sink of a spawned case: text is captured for later reporting.
    pub fn captured() -> (s: Self)
        ensures
            s.is_captured(),
            s.captured_text() == Seq::<char>::empty(),
    {
        OutputSink { mode: SinkMode::Captured, buffer: String::new() }
    }

    /// Emits one fragment of text: appended to the capture buffer when the
    /// sink captures, written to the real output when it is direct. Never
    /// fails, and never touches any other context's text.
    pub fn emit(&mut self, text: &str)
        ensures
            final(self).is_captured() == old(self).is_captured(),
            old(self).is_captured() ==> final(self).captured_text() == old(self).captured_text()
                + text@,
            !old(self).is_captured() ==> final(self).captured_text() == old(self).captured_text(),
    {
        match self.mode {
            SinkMode::Captured => self.buffer.append(text),
            SinkMode::Direct => print_direct(text),
        }
    }

    /// Hands out everything the sink captured, once its case is done.
    pub fn drain(self) -> (r: String)
        ensures
            r@ == self.captured_text(),
    {
        self.buffer
    }
}

} // verus!
