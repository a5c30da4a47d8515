//! The asynchronous, ordered logging pipeline: cloneable producer handles
//! feed formatted records through a channel to a single background consumer,
//! which appends them, one line per record and in arrival order, to the log
//! file. The pipeline is a two-state machine: uninitialized until `init`
//! installs the handle, running ever after.

use vstd::prelude::*;
use vstd::string::StrSliceExecFns;
use vstd::string::StringExecFns;
use std::sync::mpsc::Receiver;
use std::sync::mpsc::Sender;
use crate::text::spaces;

verus! {

#[verifier::external_type_specification]
#[verifier::external_body]
#[verifier::reject_recursive_types(T)]
pub struct ExSender<T>(Sender<T>);

#[verifier::external_type_specification]
#[verifier::external_body]
#[verifier::reject_recursive_types(T)]
pub struct ExReceiver<T>(Receiver<T>);

/// Relies on std::sync::mpsc::channel: it creates a connected pair of
/// endpoints for an unbounded asynchronous channel; sends never block, and
/// the receiver sees the messages of each sender in its send order.
#[verifier::external_body]
fn channel_new() -> (Sender<String>, Receiver<String>) {
    std::sync::mpsc::channel()
}

/// Relies on Sender::send: it enqueues the line for the single consumer and
/// fails only once the receiver is gone; the pipeline ignores that outcome,
/// as the original consumer lives for the whole process.
#[verifier::external_body]
fn send_line(tx: &Sender<String>, line: String) {
    let _ = tx.send(line);
}

/// Relies on Sender::clone: the clone feeds the same channel.
#[verifier::external_body]
fn clone_sender(tx: &Sender<String>) -> Sender<String> {
    tx.clone()
}

/// The text holds no newline, so the consumer writes it as one line.
pub open spec fn clean_line(s: Seq<char>) -> bool {
    forall|i: int| 0 <= i < s.len() ==> s[i] != '\n'
}

/// Relies on chrono's Local::now and its formatter: a local timestamp with
/// millisecond precision. The format writes digits and the punctuation of
/// the format string (spaces, '-', ':', '.'), never a newline.
#[verifier::external_body]
fn now_timestamp() -> (r: String)
    ensures
        clean_line(r@),
{
    chrono::Local::now().format("%Y-%m-%d %H:%M:%S%.3f").to_string()
}

/// `s` left-aligned in a field of `width` characters, padded with spaces.
pub open spec fn pad_spec(s: Seq<char>, width: nat) -> Seq<char> {
    if s.len() >= width {
        s
    } else {
        s + spaces((width - s.len()) as nat)
    }
}

/// One formatted record: the timestamp left-padded to 20 characters, " - ",
/// the level left-padded to 8 characters, two spaces, then the message.
pub open spec fn record_spec(ts: Seq<char>, level: Seq<char>, msg: Seq<char>) -> Seq<char> {
    pad_spec(ts, 20) + " - "@ + pad_spec(level, 8) + "  "@ + msg
}

/// Left-aligns `s` in a field of `width` characters, padding with spaces.
pub fn pad_to(s: &str, width: usize) -> (r: String)
    ensures
        r@ == pad_spec(s@, width as nat),
{
    let mut out = String::from_str(s);
    proof {
        reveal_strlit(" ");
        assert(s@ + spaces(0) =~= s@);
    }
    while out.unicode_len() < width
        invariant
            s@.len() <= out@.len(),
            out@ == s@ + spaces((out@.len() - s@.len()) as nat),
            s@.len() < width ==> out@.len() <= width,
            s@.len() >= width ==> out@.len() == s@.len(),
        decreases width - out@.len(),
    {
        out.append(" ");
        proof {
            reveal_strlit(" ");
            assert(out@ =~= s@ + spaces((out@.len() - s@.len()) as nat));
        }
    }
    proof {
        if s@.len() >= width as nat {
            assert(out@ =~= s@);
        }
    }
    out
}

/// Builds one record's text from its timestamp, level and message.
pub fn format_record(ts: &str, level: &str, msg: &str) -> (r: String)
    ensures
        r@ == record_spec(ts@, level@, msg@),
{
    let mut out = pad_to(ts, 20);
    out.append(" - ");
    let lv = pad_to(level, 8);
    out.append(lv.as_str());
    out.append("  ");
    out.append(msg);
    out
}

/// Misuse of a single-shot singleton: the value was requested before its
/// `init`, or `init` ran a second time.
#[derive(Clone, Copy, Debug, PartialEq, Eq, Structural)]
pub enum InitError {
    NotInitialized,
    AlreadyInitialized,
}

/// A cloneable producer handle: the sending endpoint of the pipeline's
/// channel, together with the (ghost) lines this handle has sent so far.
pub struct Logger {
    sender: Sender<String>,
    sent: Ghost<Seq<Seq<char>>>,
}

/// Holds the pipeline singleton: empty until `init` installs the handle.
pub struct LoggerRegistry {
    slot: Option<Logger>,
}

impl LoggerRegistry {
    /// Whether `init` has run: the pipeline's `Running` state.
    pub closed spec fn is_initialized(&self) -> bool {
        self.slot is Some
    }

    /// A fresh registry in the `Uninitialized` state.
    pub fn new() -> (r: LoggerRegistry)
        ensures
            !r.is_initialized(),
    {
        LoggerRegistry { slot: None }
    }
}

/// One record with the given level and message, timestamped at some instant
/// the clock reported, was appended to the handle's history.
pub open spec fn logged(
    pre: Seq<Seq<char>>,
    post: Seq<Seq<char>>,
    level: Seq<char>,
    msg: Seq<char>,
) -> bool {
    exists|ts: Seq<char>| clean_line(ts) && post == pre.push(record_spec(ts, level, msg))
}

impl Logger {
    /// The lines this handle has handed to the channel, oldest first.
    pub closed spec fn history(&self) -> Seq<Seq<char>> {
        self.sent@
    }

    /// Builds the channel and installs the process-wide handle; the caller
    /// binds the returned receiving endpoint to the background consumer that
    /// owns the log file. A second call fails and leaves the pipeline as it
    /// was: initialization is single-shot by design.
    pub fn init(reg: &mut LoggerRegistry) -> (r: Result<Receiver<String>, InitError>)
        ensures
            old(reg).is_initialized() ==> r == Err::<Receiver<String>, InitError>(
                InitError::AlreadyInitialized,
            ) && *final(reg) == *old(reg),
            !old(reg).is_initialized() ==> r is Ok && final(reg).is_initialized(),
    {
        if reg.slot.is_some() {
            return Err(InitError::AlreadyInitialized);
        }
        let (tx, rx) = channel_new();
        reg.slot = Some(Logger { sender: tx, sent: Ghost(Seq::empty()) });
        Ok(rx)
    }

    /// Returns a fresh handle on the running pipeline; before `init` it
    /// reports `NotInitialized` and never yields a default handle.
    pub fn get(reg: &LoggerRegistry) -> (r: Result<Logger, InitError>)
        ensures
            reg.is_initialized() <==> r is Ok,
            !reg.is_initialized() ==> r == Err::<Logger, InitError>(InitError::NotInitialized),
            r matches Ok(l) ==> l.history() == Seq::<Seq<char>>::empty(),
    {
        match &reg.slot {
            Some(l) => Ok(Logger { sender: clone_sender(&l.sender), sent: Ghost(Seq::empty()) }),
            None => Err(InitError::NotInitialized),
        }
    }

    /// Formats a record at the current local time and enqueues it for the
    /// consumer; the caller never blocks on file I/O.
    fn log(&mut self, level: &str, message: &str)
        ensures
            logged(old(self).history(), final(self).history(), level@, message@),
    {
        let ts = now_timestamp();
        let ghost ts_view = ts@;
        let line = format_record(ts.as_str(), level, message);
        let ghost line_view = line@;
        self.sent = Ghost(self.sent@.push(line@));
        send_line(&self.sender, line);
        proof {
            assert(clean_line(ts_view) && self.sent@ == old(self).sent@.push(
                record_spec(ts_view, level@, message@),
            ));
        }
    }

    /// Enqueues a record at the DEBUG level; the original pipeline compiles
    /// this call out of optimized builds.
    pub fn debug(&mut self, message: &str)
        ensures
            logged(old(self).history(), final(self).history(), "DEBUG"@, message@),
    {
        self.log("DEBUG", message);
    }

    /// Enqueues a record at the INFO level.
    pub fn info(&mut self, message: &str)
        ensures
            logged(old(self).history(), final(self).history(), "INFO"@, message@),
    {
        self.log("INFO", message);
    }

    /// Enqueues a record at the WARN level.
    pub fn warn(&mut self, message: &str)
        ensures
            logged(old(self).history(), final(self).history(), "WARN"@, message@),
    {
        self.log("WARN", message);
    }

    /// Enqueues a record at the ERROR level.
    pub fn error(&mut self, message: &str)
        ensures
            logged(old(self).history(), final(self).history(), "ERROR"@, message@),
    {
        self.log("ERROR", message);
    }
}

/// The text of the log file after the consumer has appended each of `lines`
/// in arrival order, each terminated by a newline.
pub open spec fn file_contents(lines: Seq<Seq<char>>) -> Seq<char>
    decreases lines.len(),
{
    if lines.len() == 0 {
        Seq::empty()
    } else {
        lines[0] + seq!['\n'] + file_contents(lines.skip(1))
    }
}

/// The character position of the first newline in `s`, or `s.len()` if none.
pub open spec fn first_newline(s: Seq<char>) -> int
    decreases s.len(),
{
    if s.len() == 0 {
        0
    } else if s[0] == '\n' {
        0
    } else {
        1 + first_newline(s.skip(1))
    }
}

proof fn lemma_first_newline_bounds(s: Seq<char>)
    ensures
        0 <= first_newline(s) <= s.len(),
    decreases s.len(),
{
    if s.len() != 0 && s[0] != '\n' {
        lemma_first_newline_bounds(s.skip(1));
    }
}

/// The lines of `s`: the text is cut at each newline; text after the last
/// newline, if any, forms a final line of its own.
pub open spec fn split_lines(s: Seq<char>) -> Seq<Seq<char>>
    decreases s.len(),
    via split_lines_decreases
{
    if s.len() == 0 {
        Seq::empty()
    } else {
        let k = first_newline(s);
        if k < s.len() {
            seq![s.take(k)] + split_lines(s.skip(k + 1))
        } else {
            seq![s]
        }
    }
}

#[via_fn]
proof fn split_lines_decreases(s: Seq<char>) {
    lemma_first_newline_bounds(s);
}

proof fn lemma_first_newline_concat(l: Seq<char>, rest: Seq<char>)
    requires
        clean_line(l),
        rest.len() > 0,
        rest[0] == '\n',
    ensures
        first_newline(l + rest) == l.len(),
    decreases l.len(),
{
    if l.len() == 0 {
        assert(l + rest =~= rest);
    } else {
        assert((l + rest)[0] == l[0]);
        assert((l + rest).skip(1) =~= l.skip(1) + rest);
        assert(clean_line(l.skip(1)));
        lemma_first_newline_concat(l.skip(1), rest);
    }
}

/// Law: when the consumer appends each of `lines` and a terminating newline,
/// in arrival order, the file splits back into exactly those lines: as many
/// lines as records were sent, in the order they were sent.
pub proof fn lemma_log_file_order(lines: Seq<Seq<char>>)
    requires
        forall|i: int| 0 <= i < lines.len() ==> clean_line(#[trigger] lines[i]),
    ensures
        split_lines(file_contents(lines)) == lines,
        split_lines(file_contents(lines)).len() == lines.len(),
    decreases lines.len(),
{
    if lines.len() == 0 {
    } else {
        let l0 = lines[0];
        let rest = lines.skip(1);
        let tail = seq!['\n'] + file_contents(rest);
        let f = file_contents(lines);
        assert(f =~= l0 + tail);
        lemma_first_newline_concat(l0, tail);
        assert(first_newline(f) == l0.len());
        assert(f.take(l0.len() as int) =~= l0);
        assert(f.skip(l0.len() as int + 1) =~= file_contents(rest));
        assert(forall|i: int| 0 <= i < rest.len() ==> clean_line(#[trigger] rest[i]));
        lemma_log_file_order(rest);
        assert(seq![l0] + rest =~= lines);
    }
}

/// Law: a record formatted from newline-free fields is a single line, so
/// each call to the producer methods contributes exactly one file line.
pub proof fn lemma_record_clean(ts: Seq<char>, level: Seq<char>, msg: Seq<char>)
    requires
        clean_line(ts),
        clean_line(level),
        clean_line(msg),
    ensures
        clean_line(record_spec(ts, level, msg)),
{
    reveal_strlit(" - ");
    reveal_strlit("  ");
    assert(clean_line(pad_spec(ts, 20)));
    assert(clean_line(pad_spec(level, 8)));
    assert(clean_line(" - "@));
    assert(clean_line("  "@));
    let a = pad_spec(ts, 20) + " - "@;
    let b = a + pad_spec(level, 8);
    let c = b + "  "@;
    assert(clean_line(a));
    assert(clean_line(b));
    assert(clean_line(c));
    assert(clean_line(c + msg));
}

} // verus!
