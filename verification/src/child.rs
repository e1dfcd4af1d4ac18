//! The child lifecycle model: the memoized exit status, the stream-closure
//! state shared by both executor flavors, and the terminal wait verdicts.

use vstd::prelude::*;
use vstd::utf8::decode_utf8;
use vstd::utf8::encode_utf8;
use vstd::utf8::valid_utf8;
use crate::error::Error;
use crate::text::contains_seq;
use crate::text::decode_lossy;
use crate::text::i32_to_string;
use crate::text::int_digits;
use crate::text::lossy_text;
use crate::text::utf8_to_string;

verus! {

/// The terminal status of a child process: the success flag and, where the
/// operating system reports one, the numeric exit code.
#[derive(Clone, Copy, Debug)]
pub struct ExitInfo {
    /// Whether the child exited successfully.
    pub success: bool,
    /// The child's exit code; `None` when the child was terminated without
    /// one (e.g. by a signal).
    pub code: Option<i32>,
}

impl ExitInfo {
    /// Success means exactly a zero exit code.
    pub open spec fn wf(&self) -> bool {
        self.success <==> self.code == Some(0i32)
    }

    /// Builds the status that an exit code stands for.
    pub fn new(code: Option<i32>) -> (r: ExitInfo)
        ensures
            r.code == code,
            r.success == (code == Some(0i32)),
            r.wf(),
    {
        match code {
            Some(c) => ExitInfo { success: c == 0, code },
            None => ExitInfo { success: false, code },
        }
    }
}

/// The in-process model of a spawned child: which stream endpoints are still
/// held open, and the exit status once it has been observed. A terminal
/// status is memoized, so the operating system is never asked twice for it.
#[derive(Clone, Copy, Debug)]
pub struct ChildState {
    /// Whether the parent still holds the pipe to the child's stdin.
    pub stdin_open: bool,
    /// Whether the parent still holds the pipe from the child's stdout.
    pub stdout_open: bool,
    /// Whether the parent still holds the pipe from the child's stderr.
    pub stderr_open: bool,
    /// The exit status, `None` until first observed.
    pub exit_status: Option<ExitInfo>,
}

impl ChildState {
    /// The state right after a capturing spawn: all three standard streams
    /// are connected through pipes.
    pub fn new_captured() -> (r: ChildState)
        ensures
            r.stdin_open,
            r.stdout_open,
            r.stderr_open,
            r.exit_status is None,
    {
        ChildState { stdin_open: true, stdout_open: true, stderr_open: true, exit_status: None }
    }

    /// The state right after a transparent spawn: stdout and stderr are
    /// inherited and stdin was left to the caller's redirection policy, so no
    /// pipe endpoint is held.
    pub fn new_transparent() -> (r: ChildState)
        ensures
            !r.stdin_open,
            !r.stdout_open,
            !r.stderr_open,
            r.exit_status is None,
    {
        ChildState { stdin_open: false, stdout_open: false, stderr_open: false, exit_status: None }
    }

    /// Drops the stdin endpoint; closing is idempotent and irreversible.
    pub fn close_stdin(&mut self)
        ensures
            !final(self).stdin_open,
            final(self).stdout_open == old(self).stdout_open,
            final(self).stderr_open == old(self).stderr_open,
            final(self).exit_status == old(self).exit_status,
    {
        self.stdin_open = false;
    }

    /// Drops the stdout endpoint; closing is idempotent and irreversible.
    pub fn close_stdout(&mut self)
        ensures
            !final(self).stdout_open,
            final(self).stdin_open == old(self).stdin_open,
            final(self).stderr_open == old(self).stderr_open,
            final(self).exit_status == old(self).exit_status,
    {
        self.stdout_open = false;
    }

    /// Drops the stderr endpoint; closing is idempotent and irreversible.
    pub fn close_stderr(&mut self)
        ensures
            !final(self).stderr_open,
            final(self).stdin_open == old(self).stdin_open,
            final(self).stdout_open == old(self).stdout_open,
            final(self).exit_status == old(self).exit_status,
    {
        self.stderr_open = false;
    }

    /// Whether a write to the child's stdin can be served: only while the
    /// pipe endpoint is still held. After `close_stdin` a write must fail
    /// with a broken-pipe condition rather than block.
    pub fn can_write(&self) -> (r: bool)
        ensures
            r == self.stdin_open,
    {
        self.stdin_open
    }

    /// Whether a read from the child's stdout can be served: only while the
    /// pipe endpoint is still held. After `close_stdout` a read must fail
    /// with a broken-pipe condition rather than block.
    pub fn can_read(&self) -> (r: bool)
        ensures
            r == self.stdout_open,
    {
        self.stdout_open
    }

    /// Notes the answer of one non-blocking status poll and says whether the
    /// child is still running. A status observed earlier is kept: the poll
    /// answer is only consulted while none is memoized yet.
    pub fn record_poll(&mut self, polled: Option<ExitInfo>) -> (running: bool)
        ensures
            old(self).exit_status is Some ==> *final(self) == *old(self),
            old(self).exit_status is None ==> final(self).exit_status == polled,
            final(self).stdin_open == old(self).stdin_open,
            final(self).stdout_open == old(self).stdout_open,
            final(self).stderr_open == old(self).stderr_open,
            running == (final(self).exit_status is None),
    {
        if self.exit_status.is_none() {
            self.exit_status = polled;
        }
        self.exit_status.is_none()
    }
}

/// The characters of an exit code: its decimal rendering, or `unknown` when
/// the operating system reported none.
pub open spec fn code_chars(code: Option<i32>) -> Seq<char> {
    match code {
        Some(c) => int_digits(c as int),
        None => "unknown"@,
    }
}

/// Renders an exit code for a diagnostic message.
pub fn code_text(code: Option<i32>) -> (r: String)
    ensures
        r@ == code_chars(code),
{
    match code {
        Some(c) => i32_to_string(c),
        None => String::from_str("unknown"),
    }
}

/// The message of a failed captured wait: it embeds the exit code and the
/// child's stderr, lossily decoded as text.
pub open spec fn captured_failure_message(code: Option<i32>, stderr_text: Seq<char>) -> Seq<char> {
    "Child process failed (exit code: "@ + code_chars(code) + "): "@ + stderr_text
}

/// The message of a failed transparent wait: it embeds only the exit code,
/// since stderr was never piped.
pub open spec fn transparent_failure_message(code: Option<i32>) -> Seq<char> {
    "Child process failed (exit code: "@ + code_chars(code) + ")"@
}

/// The verdict of a capturing executor's wait, given the observed exit
/// status and the drained stderr bytes: success passes with no output
/// captured, and an unsuccessful exit fails with the exit code and the
/// captured stderr text embedded in the message.
pub fn capturing_wait_verdict(status: &ExitInfo, stderr: &[u8]) -> (r: Result<(), Error>)
    ensures
        r is Ok <==> status.success,
        r matches Err(e) ==> e.kind is ChildError && e.message@ == captured_failure_message(
            status.code,
            lossy_text(stderr@),
        ),
{
    if status.success {
        Ok(())
    } else {
        let text = decode_lossy(stderr);
        let msg = String::from_str("Child process failed (exit code: ").concat(
            code_text(status.code).as_str(),
        ).concat("): ").concat(text.as_str());
        Err(Error::child_error(msg))
    }
}

/// The message of a captured wait where the child exited unsuccessfully and
/// draining its stderr itself failed: the exit code stays in the message,
/// with the drain failure named beside it rather than masking it.
pub open spec fn drain_failure_message(code: Option<i32>, os_error: Seq<char>) -> Seq<char> {
    "Child process failed (exit code: "@ + code_chars(code)
        + "); in addition, reading its stderr failed ("@ + os_error + ")"@
}

/// The verdict when the child exited unsuccessfully and the stderr drain
/// itself failed with the given operating-system error text: a child error
/// that still carries the exit code, with the drain failure nested in the
/// message.
pub fn capturing_drain_failure(status: &ExitInfo, os_error: &str) -> (r: Error)
    ensures
        r.kind is ChildError,
        r.message@ == drain_failure_message(status.code, os_error@),
{
    let msg = String::from_str("Child process failed (exit code: ").concat(
        code_text(status.code).as_str(),
    ).concat("); in addition, reading its stderr failed (").concat(os_error).concat(")");
    Error::child_error(msg)
}

/// A failed stderr drain still names the exit code and the drain failure in
/// its message: neither masks the other.
pub proof fn lemma_drain_failure_mentions(code: Option<i32>, os_error: Seq<char>)
    ensures
        contains_seq(drain_failure_message(code, os_error), code_chars(code)),
        contains_seq(drain_failure_message(code, os_error), os_error),
{
    let m = drain_failure_message(code, os_error);
    let p1 = "Child process failed (exit code: "@;
    let cc = code_chars(code);
    let p2 = "); in addition, reading its stderr failed ("@;
    assert(m.subrange(p1.len() as int, (p1.len() + cc.len()) as int) =~= cc);
    assert(m.subrange(
        (p1.len() + cc.len() + p2.len()) as int,
        (p1.len() + cc.len() + p2.len() + os_error.len()) as int,
    ) =~= os_error);
}

/// The verdict of a transparent executor's wait: success passes, and an
/// unsuccessful exit fails with only the exit code known.
pub fn transparent_wait_verdict(status: &ExitInfo) -> (r: Result<(), Error>)
    ensures
        r is Ok <==> status.success,
        r matches Err(e) ==> e.kind is ExecError && e.message@ == transparent_failure_message(
            status.code,
        ),
{
    if status.success {
        Ok(())
    } else {
        let msg = String::from_str("Child process failed (exit code: ").concat(
            code_text(status.code).as_str(),
        ).concat(")");
        Err(Error::exec_error(msg))
    }
}

/// Turns collected stdout bytes into text: exactly the valid UTF-8 byte
/// sequences decode, anything else is a child error.
pub fn stdout_to_string(bytes: Vec<u8>) -> (r: Result<String, Error>)
    ensures
        valid_utf8(bytes@) ==> (r matches Ok(s) && s@ == decode_utf8(bytes@)),
        !valid_utf8(bytes@) ==> (r matches Err(e) && e.kind is ChildError),
    {
    match utf8_to_string(bytes) {
        Some(s) => Ok(s),
        None => Err(
            Error::child_error(String::from_str("Cannot read child's stdout as string")),
        ),
    }
}

/// Round trip: a child that writes the UTF-8 encoding of a text to stdout
/// and exits successfully collects back to exactly that text, since the
/// encoding is valid UTF-8 and decodes to what was encoded.
pub proof fn lemma_stdout_round_trip(text: Seq<char>)
    ensures
        valid_utf8(encode_utf8(text)),
        decode_utf8(encode_utf8(text)) == text,
{
    vstd::utf8::encode_utf8_valid_utf8(text);
    vstd::utf8::encode_utf8_decode_utf8(text);
}

/// A failed captured wait mentions both the child's stderr text and the
/// rendering of its exit code somewhere in its message.
pub proof fn lemma_captured_failure_mentions(code: Option<i32>, stderr_text: Seq<char>)
    ensures
        contains_seq(captured_failure_message(code, stderr_text), stderr_text),
        contains_seq(captured_failure_message(code, stderr_text), code_chars(code)),
{
    let m = captured_failure_message(code, stderr_text);
    let p1 = "Child process failed (exit code: "@;
    let cc = code_chars(code);
    let p2 = "): "@;
    assert(m.subrange(
        (p1.len() + cc.len() + p2.len()) as int,
        (p1.len() + cc.len() + p2.len() + stderr_text.len()) as int,
    ) =~= stderr_text);
    assert(m.subrange(p1.len() as int, (p1.len() + cc.len()) as int) =~= cc);
}

/// A failed transparent wait mentions the rendering of the exit code in its
/// message.
pub proof fn lemma_transparent_failure_mentions(code: Option<i32>)
    ensures
        contains_seq(transparent_failure_message(code), code_chars(code)),
{
    let m = transparent_failure_message(code);
    let p1 = "Child process failed (exit code: "@;
    let cc = code_chars(code);
    assert(m.subrange(p1.len() as int, (p1.len() + cc.len()) as int) =~= cc);
}

} // verus!
