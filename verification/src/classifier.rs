//! Pure classification of the worker subprocess's log lines: connect and
//! disconnect events on standard output, terminal fault markers on standard
//! error, and the resolution of a whole standard-error stream into the
//! terminal stop reason of a run.

use vstd::prelude::*;
use vstd::string::*;

use crate::events::{DeviceConnectionEvent, DeviceEventView, ProcessStopReason};
use crate::strutil::{
    contains_seq, contains_sub, find_char_last, find_last_char, find_last_token, last_token,
};

verus! {

pub open spec fn accept_marker() -> Seq<char> {
    "[info] accept"@
}

pub open spec fn close_marker() -> Seq<char> {
    "[info] close"@
}

pub open spec fn bind_fault_marker() -> Seq<char> {
    "bind: Cannot assign requested address"@
}

pub open spec fn invalid_arg_marker() -> Seq<char> {
    "Invalid argument"@
}

fn accept_marker_str() -> (r: &'static str)
    ensures
        r@ == accept_marker(),
{
    "[info] accept"
}

fn close_marker_str() -> (r: &'static str)
    ensures
        r@ == close_marker(),
{
    "[info] close"
}

fn bind_fault_marker_str() -> (r: &'static str)
    ensures
        r@ == bind_fault_marker(),
{
    "bind: Cannot assign requested address"
}

fn invalid_arg_marker_str() -> (r: &'static str)
    ensures
        r@ == invalid_arg_marker(),
{
    "Invalid argument"
}

/// The event a line carrying `marker` yields: the prefix of the line's last
/// whitespace-delimited token up to the token's last colon, as the peer
/// address — the split at the last colon keeps a colon-bearing address such
/// as an IPv6 one whole. A line without the marker, without a trailing
/// token, or whose trailing token has no colon yields nothing.
pub open spec fn marker_event(line: Seq<char>, marker: Seq<char>, connected: bool) -> Option<
    DeviceEventView,
> {
    if contains_seq(line, marker) {
        match last_token(line) {
            Option::None => Option::None,
            Option::Some(tok) => match find_char_last(tok, ':') {
                Option::None => Option::None,
                Option::Some(k) => Option::Some(
                    DeviceEventView { peer_address: tok.subrange(0, k), connected: connected },
                ),
            },
        }
    } else {
        Option::None
    }
}

/// All device events of one standard-output line: a connect event if it
/// carries the accept marker, then a disconnect event if it carries the close
/// marker.
pub open spec fn classify_stdout_spec(line: Seq<char>) -> Seq<DeviceEventView> {
    let a = marker_event(line, accept_marker(), true);
    let c = marker_event(line, close_marker(), false);
    match (a, c) {
        (Option::None, Option::None) => Seq::empty(),
        (Option::Some(x), Option::None) => seq![x],
        (Option::None, Option::Some(y)) => seq![y],
        (Option::Some(x), Option::Some(y)) => seq![x, y],
    }
}

/// The terminal fault a standard-error line carries, if any; the binding
/// fault is recognized ahead of the invalid-argument fault within one line.
pub open spec fn classify_stderr_spec(line: Seq<char>) -> Option<ProcessStopReason> {
    if contains_seq(line, bind_fault_marker()) {
        Option::Some(ProcessStopReason::InvalidBinding)
    } else if contains_seq(line, invalid_arg_marker()) {
        Option::Some(ProcessStopReason::InvalidArgument)
    } else {
        Option::None
    }
}

/// Classifies one line of the worker's output against one marker.
fn classify_marker(line: &str, marker: &str, connected: bool) -> (r: Option<DeviceConnectionEvent>)
    ensures
        match r {
            Option::Some(e) => marker_event(line@, marker@, connected) == Option::Some(e@),
            Option::None => marker_event(line@, marker@, connected) is None,
        },
{
    if !contains_sub(line, marker) {
        return None;
    }
    match find_last_token(line) {
        None => None,
        Some((b, e)) => {
            let tok = line.substring_char(b, e);
            match find_last_char(tok, ':') {
                None => None,
                Some(k) => {
                    proof {
                        crate::strutil::lemma_find_char_last_before(tok@, ':', tok@.len() as int);
                        assert(0 <= k < tok@.len());
                    }
                    let ip = tok.substring_char(0, k).to_owned();
                    let ev = DeviceConnectionEvent { peer_address: ip, connected };
                    proof {
                        assert(ev@ =~= marker_event(line@, marker@, connected)->0);
                    }
                    Some(ev)
                },
            }
        },
    }
}

/// Classifies one standard-output line of the worker into its device
/// connect/disconnect events, in log order.
pub fn classify_stdout_line(line: &str) -> (r: Vec<DeviceConnectionEvent>)
    ensures
        r@.map_values(|e: DeviceConnectionEvent| e@) =~= classify_stdout_spec(line@),
{
    let mut out: Vec<DeviceConnectionEvent> = Vec::new();
    if let Some(ev) = classify_marker(line, accept_marker_str(), true) {
        out.push(ev);
    }
    if let Some(ev) = classify_marker(line, close_marker_str(), false) {
        out.push(ev);
    }
    out
}

/// Classifies one standard-error line of the worker into its terminal fault,
/// if it carries one.
pub fn classify_stderr_line(line: &str) -> (r: Option<ProcessStopReason>)
    ensures
        r == classify_stderr_spec(line@),
{
    if contains_sub(line, bind_fault_marker_str()) {
        Some(ProcessStopReason::InvalidBinding)
    } else if contains_sub(line, invalid_arg_marker_str()) {
        Some(ProcessStopReason::InvalidArgument)
    } else {
        None
    }
}

/// The terminal reason a standard-error stream resolves to, reading from line
/// `i` on: the fault of the first fault-carrying line, or
/// `ExitedSuccessfully` when no line carries one.
pub open spec fn resolve_stderr_from(lines: Seq<Seq<char>>, i: int) -> ProcessStopReason
    decreases lines.len() - i,
{
    if i < 0 || i >= lines.len() {
        ProcessStopReason::ExitedSuccessfully
    } else {
        match classify_stderr_spec(lines[i]) {
            Option::Some(r) => r,
            Option::None => resolve_stderr_from(lines, i + 1),
        }
    }
}

/// The terminal reason of a whole standard-error stream.
pub open spec fn resolve_stderr_spec(lines: Seq<Seq<char>>) -> ProcessStopReason {
    resolve_stderr_from(lines, 0)
}

/// Resolves a complete standard-error stream, given as its lines, into the
/// terminal stop reason the stderr reader arrives at: the first recognized
/// fault wins and reading stops there; a stream with no fault resolves to
/// `ExitedSuccessfully`.
pub fn resolve_stderr_reason(lines: &Vec<String>) -> (r: ProcessStopReason)
    ensures
        r == resolve_stderr_spec(lines@.map_values(|l: String| l@)),
{
    let ghost views = lines@.map_values(|l: String| l@);
    let n = lines.len();
    let mut i: usize = 0;
    while i < n
        invariant
            n == lines@.len(),
            views == lines@.map_values(|l: String| l@),
            0 <= i <= n,
            resolve_stderr_from(views, 0) == resolve_stderr_from(views, i as int),
        decreases n - i,
    {
        match classify_stderr_line(lines[i].as_str()) {
            Some(r) => {
                return r;
            },
            None => {
                i = i + 1;
            },
        }
    }
    ProcessStopReason::ExitedSuccessfully
}

/// A line carrying the accept marker whose trailing token has a colon
/// classifies as a connect event whose peer address is exactly the token up
/// to its last colon; it comes first among the line's events.
pub proof fn lemma_accept_line_event(line: Seq<char>)
    requires
        contains_seq(line, accept_marker()),
        last_token(line) is Some,
        find_char_last(last_token(line)->0, ':') is Some,
    ensures
        classify_stdout_spec(line).len() >= 1,
        classify_stdout_spec(line)[0].connected,
        classify_stdout_spec(line)[0].peer_address == (last_token(line)->0).subrange(
            0,
            find_char_last(last_token(line)->0, ':')->0,
        ),
{
}

/// A line carrying the close marker but not the accept marker, whose
/// trailing token has a colon, classifies as exactly one disconnect event
/// for the token up to its last colon.
pub proof fn lemma_close_line_event(line: Seq<char>)
    requires
        !contains_seq(line, accept_marker()),
        contains_seq(line, close_marker()),
        last_token(line) is Some,
        find_char_last(last_token(line)->0, ':') is Some,
    ensures
        classify_stdout_spec(line).len() == 1,
        !classify_stdout_spec(line)[0].connected,
        classify_stdout_spec(line)[0].peer_address == (last_token(line)->0).subrange(
            0,
            find_char_last(last_token(line)->0, ':')->0,
        ),
{
}

/// A line with neither marker, or whose trailing token is malformed (absent
/// or without a colon), yields no event.
pub proof fn lemma_silent_line_no_event(line: Seq<char>)
    requires
        (!contains_seq(line, accept_marker()) && !contains_seq(line, close_marker()))
            || last_token(line) is None
            || (last_token(line) is Some && find_char_last(last_token(line)->0, ':') is None),
    ensures
        classify_stdout_spec(line).len() == 0,
{
}

/// A standard-error stream none of whose lines carries a fault marker
/// resolves to `ExitedSuccessfully`.
pub proof fn lemma_clean_exit_reason(lines: Seq<Seq<char>>)
    requires
        forall|i: int|
            0 <= i < lines.len() ==> !contains_seq(lines[i], bind_fault_marker()) && !contains_seq(
                lines[i],
                invalid_arg_marker(),
            ),
    ensures
        resolve_stderr_spec(lines) == ProcessStopReason::ExitedSuccessfully,
{
    lemma_resolve_clean_from(lines, 0);
}

proof fn lemma_resolve_clean_from(lines: Seq<Seq<char>>, i: int)
    requires
        0 <= i,
        forall|j: int|
            i <= j < lines.len() ==> !contains_seq(lines[j], bind_fault_marker()) && !contains_seq(
                lines[j],
                invalid_arg_marker(),
            ),
    ensures
        resolve_stderr_from(lines, i) == ProcessStopReason::ExitedSuccessfully,
    decreases lines.len() - i,
{
    if i < lines.len() {
        lemma_resolve_clean_from(lines, i + 1);
    }
}

/// A standard-error stream whose first fault-carrying line carries the
/// binding-failure marker resolves to `InvalidBinding`.
pub proof fn lemma_bind_fault_reason(lines: Seq<Seq<char>>, i: int)
    requires
        0 <= i < lines.len(),
        contains_seq(lines[i], bind_fault_marker()),
        forall|j: int|
            0 <= j < i ==> !contains_seq(lines[j], bind_fault_marker()) && !contains_seq(
                lines[j],
                invalid_arg_marker(),
            ),
    ensures
        resolve_stderr_spec(lines) == ProcessStopReason::InvalidBinding,
{
    lemma_bind_fault_from(lines, 0, i);
}

proof fn lemma_bind_fault_from(lines: Seq<Seq<char>>, j: int, i: int)
    requires
        0 <= j <= i < lines.len(),
        contains_seq(lines[i], bind_fault_marker()),
        forall|m: int|
            j <= m < i ==> !contains_seq(lines[m], bind_fault_marker()) && !contains_seq(
                lines[m],
                invalid_arg_marker(),
            ),
    ensures
        resolve_stderr_from(lines, j) == ProcessStopReason::InvalidBinding,
    decreases i - j,
{
    if j < i {
        lemma_bind_fault_from(lines, j + 1, i);
    }
}

} // verus!
