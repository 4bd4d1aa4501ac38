//! What becomes of one complete line read from the worker: the event that
//! carries it to the consumer, and what the diagnostic log may show of it.
use crate::redact::{is_sensitive, loggable, REDACTED};
use vstd::prelude::*;
use vstd::utf8::{decode_utf8, encode_utf8, valid_utf8};

verus! {

/// The worker's two output streams.
#[derive(Clone, Copy, Debug, PartialEq, Eq, Structural)]
pub enum StreamKind {
    Stdout,
    Stderr,
}

impl StreamKind {
    /// The event name under which the consumer receives lines of this stream.
    pub fn event_name(&self) -> (r: &'static str)
        ensures
            r == match self {
                StreamKind::Stdout => "process-stdout",
                StreamKind::Stderr => "process-stderr",
            },
    {
        match self {
            StreamKind::Stdout => "process-stdout",
            StreamKind::Stderr => "process-stderr",
        }
    }

    /// The stream's name as the diagnostic log writes it.
    pub fn label(&self) -> (r: &'static str)
        ensures
            r == match self {
                StreamKind::Stdout => "stdout",
                StreamKind::Stderr => "stderr",
            },
    {
        match self {
            StreamKind::Stdout => "stdout",
            StreamKind::Stderr => "stderr",
        }
    }
}

/// The fate of one line.
#[derive(Debug)]
pub enum LineOutcome {
    /// The line is text: `text` goes to the consumer as it is, `logged` to
    /// the diagnostic log.
    Forward { text: String, logged: String },
    /// The line is not valid UTF-8: it is reported and dropped.
    Undecodable,
}

/// `r` is the fate that `line` must meet.
pub open spec fn outcome_of(line: Seq<u8>, r: LineOutcome) -> bool {
    match r {
        LineOutcome::Forward { text, logged } => {
            &&& valid_utf8(line)
            &&& text@ == decode_utf8(line)
            &&& logged@ == (if is_sensitive(text@) {
                REDACTED@
            } else {
                text@
            })
        },
        LineOutcome::Undecodable => !valid_utf8(line),
    }
}

/// Relies on `String::from_utf8`: it succeeds exactly on valid UTF-8 and
/// then holds the characters that the bytes encode.
#[verifier::external_body]
fn decode_text(bytes: Vec<u8>) -> (r: Option<String>)
    ensures
        r is Some <==> valid_utf8(bytes@),
        r matches Some(s) ==> s@ == decode_utf8(bytes@),
{
    String::from_utf8(bytes).ok()
}

/// Decides the fate of one complete line. Redaction touches only what is
/// logged: the forwarded text encodes exactly the bytes that were read.
pub fn forward_line(line: Vec<u8>) -> (r: LineOutcome)
    ensures
        outcome_of(line@, r),
        r matches LineOutcome::Forward { text, .. } ==> encode_utf8(text@) == line@,
{
    let ghost bytes = line@;
    match decode_text(line) {
        Some(text) => {
            proof {
                vstd::utf8::decode_utf8_encode_utf8(bytes);
            }
            let logged = loggable(text.as_str());
            LineOutcome::Forward { text, logged }
        },
        None => LineOutcome::Undecodable,
    }
}

/// Whether a line is sensitive or not, the text that the consumer receives
/// is the line as the worker wrote it, byte for byte; only the logged form
/// differs.
pub proof fn law_forwarded_text_unredacted(line: Seq<u8>, r: LineOutcome)
    requires
        outcome_of(line, r),
    ensures
        r matches LineOutcome::Forward { text, .. } ==> encode_utf8(text@) == line,
        r matches LineOutcome::Forward { text, logged } ==> (is_sensitive(text@) ==> logged@
            == REDACTED@) && (!is_sensitive(text@) ==> logged@ == text@),
{
    if valid_utf8(line) {
        vstd::utf8::decode_utf8_encode_utf8(line);
    }
}

} // verus!
