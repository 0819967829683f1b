//! The lines of the installer's log file: a wall-clock stamp, the message,
//! and the output of the commands it ran.

use vstd::prelude::*;
use crate::text::{decimal, push_decimal, push_str, trim_end, trim_end_str};

verus! {

/// A number below a hundred written with two digits, as `{:02}` writes it.
pub open spec fn two_digits(n: nat) -> Seq<char> {
    if n < 10 { "0"@ + decimal(n) } else { decimal(n) }
}

/// The time of day, `HH:MM:SS`, of a count of seconds since the epoch.
pub open spec fn clock_of(secs: nat) -> Seq<char> {
    two_digits((secs % 86400) / 3600) + ":"@ + two_digits((secs % 3600) / 60) + ":"@ + two_digits(secs % 60)
}

/// One record of the log file: the stamp in brackets, the message, a newline.
pub open spec fn record_of(stamp: Seq<char>, msg: Seq<char>) -> Seq<char> {
    "["@ + stamp + "] "@ + msg + "\n"@
}

/// The message logged for one output stream of command `cmd`: the command
/// in brackets, the stream's name, and its text without trailing white space.
pub open spec fn stream_line(cmd: Seq<char>, stream: Seq<char>, text: Seq<char>) -> Seq<char> {
    "["@ + cmd + "] "@ + stream + ": "@ + trim_end(text)
}

/// The messages logged for a command's output: its standard output, then
/// its standard error, each without trailing white space and each only when
/// not empty.
pub open spec fn output_messages(cmd: Seq<char>, stdout: Seq<char>, stderr: Seq<char>) -> Seq<Seq<char>> {
    let out: Seq<Seq<char>> = if stdout.len() > 0 {
        seq![stream_line(cmd, "stdout"@, stdout)]
    } else {
        seq![]
    };
    let err: Seq<Seq<char>> = if stderr.len() > 0 {
        seq![stream_line(cmd, "stderr"@, stderr)]
    } else {
        seq![]
    };
    out + err
}

fn push_two_digits(s: &mut String, n: u64)
    requires
        n < 100,
    ensures
        final(s)@ == old(s)@ + two_digits(n as nat),
{
    if n < 10 {
        push_str(s, "0");
    }
    push_decimal(s, n);
    assert(final(s)@ =~= old(s)@ + two_digits(n as nat));
}

/// The time of day of `secs` seconds since the epoch, as `HH:MM:SS`.
pub fn clock_text(secs: u64) -> (r: String)
    ensures
        r@ == clock_of(secs as nat),
{
    let h = (secs % 86400) / 3600;
    let m = (secs % 3600) / 60;
    let sec = secs % 60;
    let mut s = String::new();
    push_two_digits(&mut s, h);
    push_str(&mut s, ":");
    push_two_digits(&mut s, m);
    push_str(&mut s, ":");
    push_two_digits(&mut s, sec);
    assert(s@ =~= clock_of(secs as nat));
    s
}

/// The record that logging `msg` at time `stamp` appends to the log file.
pub fn log_record(stamp: &str, msg: &str) -> (r: String)
    ensures
        r@ == record_of(stamp@, msg@),
{
    let mut s = String::new();
    push_str(&mut s, "[");
    push_str(&mut s, stamp);
    push_str(&mut s, "] ");
    push_str(&mut s, msg);
    push_str(&mut s, "\n");
    assert(s@ =~= record_of(stamp@, msg@));
    s
}

fn stream_message(cmd: &str, stream: &str, text: &str) -> (r: String)
    ensures
        r@ == stream_line(cmd@, stream@, text@),
{
    let mut s = String::new();
    push_str(&mut s, "[");
    push_str(&mut s, cmd);
    push_str(&mut s, "] ");
    push_str(&mut s, stream);
    push_str(&mut s, ": ");
    let t = trim_end_str(text);
    push_str(&mut s, t.as_str());
    assert(s@ =~= stream_line(cmd@, stream@, text@));
    s
}

/// The messages to log for the output of command `cmd`.
pub fn output_log_messages(cmd: &str, stdout: &str, stderr: &str) -> (r: Vec<String>)
    ensures
        r@.map_values(|m: String| m@) == output_messages(cmd@, stdout@, stderr@),
{
    let mut r: Vec<String> = Vec::new();
    if stdout.unicode_len() > 0 {
        r.push(stream_message(cmd, "stdout", stdout));
    }
    let ghost mid = r@.map_values(|m: String| m@);
    if stderr.unicode_len() > 0 {
        r.push(stream_message(cmd, "stderr", stderr));
    }
    assert(r@.map_values(|m: String| m@) =~= output_messages(cmd@, stdout@, stderr@));
    r
}

} // verus!
