//! The output loop of a session: what to do with each read from the
//! pseudo-terminal.
//!
//! The caller reads, hands the outcome to `after_read`, and does what the
//! answer says: forward the notification and read again, or stop reading and
//! finalize the session in the registry.

use vstd::prelude::*;
use vstd::slice::slice_subrange;
use vstd::utf8::{decode_utf8, valid_utf8};
use crate::terminal::TerminalDataEvent;

verus! {

/// The size of the buffer that the output loop reads into.
pub const READ_CHUNK: usize = 8192;

/// The text that a chunk of output is forwarded as: the bytes decoded as
/// UTF-8, with each invalid sequence replaced by U+FFFD.
pub uninterp spec fn lossy_text(bytes: Seq<u8>) -> Seq<char>;

/// Decodes a chunk of output permissively.
///
/// Trusted: the body is `String::from_utf8_lossy` of the standard library,
/// copied into a new string. Its result depends on the bytes alone; the
/// contract gives that result the name `lossy_text`, and claims of it only
/// what the documentation says of well-formed input: bytes that are valid
/// UTF-8 come back as the text that they encode.
#[verifier::external_body]
fn decode_lossy(bytes: &[u8]) -> (text: String)
    ensures
        text@ == lossy_text(bytes@),
        valid_utf8(bytes@) ==> text@ == decode_utf8(bytes@),
{
    String::from_utf8_lossy(bytes).into_owned()
}

/// What the output loop does after one read.
pub enum PumpStep {
    /// Send this notification to the event sink, then read again.
    Forward(TerminalDataEvent),
    /// Stop reading and finalize the session.
    Stop,
}

/// The notification that carries `text` as output of session `session_id`.
pub fn data_event(session_id: &str, text: String) -> (event: TerminalDataEvent)
    ensures
        event.session_id@ == session_id@,
        event.data == text,
{
    TerminalDataEvent { session_id: session_id.to_owned(), data: text }
}

/// Decides what follows a read into `buf` that returned `read`: the number of
/// bytes read, or nothing if the read failed.
///
/// A read of at least one byte is forwarded as one notification that carries
/// the bytes read, decoded permissively: as the text that they encode if
/// they are valid UTF-8. A read of no bytes (the stream has closed) and a
/// failed read both stop the loop.
pub fn after_read(session_id: &str, buf: &[u8], read: Option<usize>) -> (r: PumpStep)
    requires
        read matches Some(n) ==> n <= buf@.len(),
    ensures
        match read {
            Some(n) => if n > 0 {
                &&& r matches PumpStep::Forward(event)
                &&& event.session_id@ == session_id@
                &&& event.data@ == lossy_text(buf@.take(n as int))
                &&& valid_utf8(buf@.take(n as int)) ==> event.data@ == decode_utf8(
                    buf@.take(n as int),
                )
            } else {
                r is Stop
            },
            None => r is Stop,
        },
{
    match read {
        Some(n) => {
            if n > 0 {
                let chunk = slice_subrange(buf, 0, n);
                assert(chunk@ =~= buf@.take(n as int));
                PumpStep::Forward(data_event(session_id, decode_lossy(chunk)))
            } else {
                PumpStep::Stop
            }
        },
        None => PumpStep::Stop,
    }
}

} // verus!
