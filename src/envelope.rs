//! The envelope: the full line handed to a sink, made of a timestamp, the
//! calling thread, the severity, the call site and the message.
use vstd::prelude::*;

use crate::severity::Severity;
use crate::text::{decimal, is_numeric, lemma_decimal_is_numeric, push_char, push_decimal};

verus! {

/// The fixed instant, in nanoseconds since the Unix epoch, from which
/// timestamps are counted. It only keeps the printed numbers short.
pub const EPOCH_OFFSET_NS: u128 = 1580022711607150410;

/// Where and when a message comes from.
pub struct Origin {
    /// Nanoseconds since `EPOCH_OFFSET_NS`.
    pub elapsed_ns: u128,
    /// An integer that identifies the calling thread.
    pub thread_id: u64,
    /// The source file of the call site.
    pub file: String,
    /// The line of the call site.
    pub line: u32,
}

/// `<T:I> [S] (F:L) M`, with `T` the timestamp, `I` the thread, `S` the
/// severity tag, `F` and `L` the call site and `M` the message.
pub open spec fn envelope(
    severity: Severity,
    elapsed_ns: nat,
    thread_id: nat,
    file: Seq<char>,
    line: nat,
    message: Seq<char>,
) -> Seq<char> {
    seq!['<'] + decimal(elapsed_ns) + seq![':'] + decimal(thread_id) + seq!['>', ' ', '[']
        + severity.tag_spec() + seq![']', ' ', '('] + file + seq![':'] + decimal(line) + seq![
        ')',
        ' ',
    ] + message
}

/// The envelope of `message` sent from `origin`.
pub open spec fn envelope_of(severity: Severity, origin: Origin, message: Seq<char>) -> Seq<char> {
    envelope(
        severity,
        origin.elapsed_ns as nat,
        origin.thread_id as nat,
        origin.file@,
        origin.line as nat,
        message,
    )
}

/// The envelope of any message reads `<T:I> [S] (F:L) M`: the timestamp
/// `T`, the thread `I` and the line `L` are numeric, `S` is one of `info`,
/// `error` and `fatal`, and the line ends with the message `M` exactly.
pub proof fn envelope_format(severity: Severity, origin: Origin, message: Seq<char>)
    ensures
        ({
            let t = decimal(origin.elapsed_ns as nat);
            let i = decimal(origin.thread_id as nat);
            let l = decimal(origin.line as nat);
            let s = severity.tag_spec();
            let e = envelope_of(severity, origin, message);
            &&& is_numeric(t) && is_numeric(i) && is_numeric(l)
            &&& s == "info"@ || s == "error"@ || s == "fatal"@
            &&& e == seq!['<'] + t + seq![':'] + i + seq!['>', ' ', '['] + s + seq![']', ' ', '(']
                + origin.file@ + seq![':'] + l + seq![')', ' '] + message
            &&& e.len() >= message.len()
            &&& e.subrange(e.len() - message.len(), e.len() as int) == message
        }),
{
    lemma_decimal_is_numeric(origin.elapsed_ns as nat);
    lemma_decimal_is_numeric(origin.thread_id as nat);
    lemma_decimal_is_numeric(origin.line as nat);
    reveal_strlit("info");
    reveal_strlit("error");
    reveal_strlit("fatal");
    let e = envelope_of(severity, origin, message);
    assert(severity.tag_spec() =~= "info"@ || severity.tag_spec() =~= "error"@ || severity.tag_spec() =~= "fatal"@);
    assert(e.subrange(e.len() - message.len(), e.len() as int) =~= message);
}

/// The time elapsed since `EPOCH_OFFSET_NS` at `now_ns` nanoseconds after the
/// Unix epoch, or `None` for an instant before it.
pub fn elapsed_since_epoch(now_ns: u128) -> (r: Option<u128>)
    ensures
        now_ns >= EPOCH_OFFSET_NS ==> r == Some((now_ns - EPOCH_OFFSET_NS) as u128),
        now_ns < EPOCH_OFFSET_NS ==> r is None,
{
    if now_ns >= EPOCH_OFFSET_NS {
        Some(now_ns - EPOCH_OFFSET_NS)
    } else {
        None
    }
}

/// Renders the envelope of `message`.
pub fn render(severity: Severity, origin: &Origin, message: &str) -> (r: String)
    ensures
        r@ == envelope_of(severity, *origin, message@),
{
    let mut out = String::new();
    push_char(&mut out, '<');
    push_decimal(&mut out, origin.elapsed_ns);
    push_char(&mut out, ':');
    push_decimal(&mut out, origin.thread_id as u128);
    push_char(&mut out, '>');
    push_char(&mut out, ' ');
    push_char(&mut out, '[');
    out.append(severity.tag());
    push_char(&mut out, ']');
    push_char(&mut out, ' ');
    push_char(&mut out, '(');
    out.append(origin.file.as_str());
    push_char(&mut out, ':');
    push_decimal(&mut out, origin.line as u128);
    push_char(&mut out, ')');
    push_char(&mut out, ' ');
    out.append(message);
    assert(out@ =~= envelope_of(severity, *origin, message@));
    out
}

} // verus!
