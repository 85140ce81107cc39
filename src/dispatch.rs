//! The level dispatcher and the assertion helpers. Each call takes a message
//! that the caller has already formatted, renders its envelope and hands back
//! the sink's `Delivery`; the caller writes it and, for a fatal one, ends the
//! calling unit.
use vstd::prelude::*;

use crate::envelope::{envelope_format, envelope_of, render, Origin};
use crate::severity::Severity;
use crate::sink::{Delivery, Sink};
use crate::text::{decimal, is_numeric};

verus! {

/// `d` is what `sink` does with `message` of `severity` sent from `origin`.
pub open spec fn delivers(
    d: Delivery,
    sink: Sink,
    severity: Severity,
    origin: Origin,
    message: Seq<char>,
) -> bool {
    &&& d.channel == sink.channel_spec(severity)
    &&& d.text@ == envelope_of(severity, origin, message)
    &&& d.terminates == (severity == Severity::Fatal)
}

/// The line of any delivery of `message` reads `<T:I> [S] (F:L) M`, with `T`
/// and `I` numeric, `S` the severity's tag, `F` and `L` the call site, and `M`
/// the message exactly; the line ends with `M`.
pub proof fn logged_line_format(
    d: Delivery,
    sink: Sink,
    severity: Severity,
    origin: Origin,
    message: Seq<char>,
)
    requires
        delivers(d, sink, severity, origin, message),
    ensures
        ({
            let t = decimal(origin.elapsed_ns as nat);
            let i = decimal(origin.thread_id as nat);
            let e = d.text@;
            &&& is_numeric(t) && is_numeric(i)
            &&& e == seq!['<'] + t + seq![':'] + i + seq!['>', ' ', '['] + severity.tag_spec()
                + seq![']', ' ', '('] + origin.file@ + seq![':'] + decimal(origin.line as nat)
                + seq![')', ' '] + message
            &&& e.len() >= message.len()
            &&& e.subrange(e.len() - message.len(), e.len() as int) == message
        }),
{
    envelope_format(severity, origin, message);
}

/// Sends `message` at `severity`.
pub fn log(sink: Sink, severity: Severity, origin: &Origin, message: &str) -> (r: Delivery)
    ensures
        delivers(r, sink, severity, *origin, message@),
{
    sink.write(severity, render(severity, origin, message))
}

/// An info message: written, and the caller goes on.
pub fn log_i(sink: Sink, origin: &Origin, message: &str) -> (r: Delivery)
    ensures
        delivers(r, sink, Severity::Info, *origin, message@),
        !r.terminates,
{
    log(sink, Severity::Info, origin, message)
}

/// An error message: written, and the caller goes on.
pub fn log_e(sink: Sink, origin: &Origin, message: &str) -> (r: Delivery)
    ensures
        delivers(r, sink, Severity::Error, *origin, message@),
        !r.terminates,
{
    log(sink, Severity::Error, origin, message)
}

/// A fatal message: written, and then the calling unit ends.
pub fn log_f(sink: Sink, origin: &Origin, message: &str) -> (r: Delivery)
    ensures
        delivers(r, sink, Severity::Fatal, *origin, message@),
        r.terminates,
{
    log(sink, Severity::Fatal, origin, message)
}

/// The value inside `value`, or, where there is none, the fatal message
/// `Unwrap failed!`.
pub fn unwrap_or_fatal<T>(sink: Sink, origin: &Origin, value: Option<T>) -> (r: Result<
    T,
    Delivery,
>)
    ensures
        match value {
            Some(v) => r == Ok::<T, Delivery>(v),
            None => r matches Err(d) && delivers(d, sink, Severity::Fatal, *origin, "Unwrap failed!"@),
        },
{
    match value {
        Some(v) => Ok(v),
        None => Err(log_f(sink, origin, "Unwrap failed!")),
    }
}

/// The success value of `value`, or, on failure, the fatal message
/// `Unwrap failed! ` followed by the failure's description.
pub fn result_or_fatal<T>(sink: Sink, origin: &Origin, value: Result<T, String>) -> (r: Result<
    T,
    Delivery,
>)
    ensures
        match value {
            Ok(v) => r == Ok::<T, Delivery>(v),
            Err(e) => r matches Err(d) && delivers(
                d,
                sink,
                Severity::Fatal,
                *origin,
                "Unwrap failed! "@ + e@,
            ),
        },
{
    match value {
        Ok(v) => Ok(v),
        Err(e) => {
            let mut message = String::from_str("Unwrap failed! ");
            message.append(e.as_str());
            Err(log_f(sink, origin, message.as_str()))
        },
    }
}

/// Marks code that is not written yet: the fatal message `Not implemented`.
pub fn not_implemented(sink: Sink, origin: &Origin) -> (r: Delivery)
    ensures
        delivers(r, sink, Severity::Fatal, *origin, "Not implemented"@),
        r.terminates,
{
    log_f(sink, origin, "Not implemented")
}

/// Marks code that should never run: the fatal message `Unexpected`.
pub fn unexpected(sink: Sink, origin: &Origin) -> (r: Delivery)
    ensures
        delivers(r, sink, Severity::Fatal, *origin, "Unexpected"@),
        r.terminates,
{
    log_f(sink, origin, "Unexpected")
}

/// Marks unfinished work without stopping: the error message `TODO`.
pub fn todo_marker(sink: Sink, origin: &Origin) -> (r: Delivery)
    ensures
        delivers(r, sink, Severity::Error, *origin, "TODO"@),
        !r.terminates,
{
    log_e(sink, origin, "TODO")
}

} // verus!
