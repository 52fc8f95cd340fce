//! Smart-plug backend.
//!
//! The plug is driven through an external command-line tool. The backend builds
//! the command for a request and reads the outcome of its run; running it, with
//! the time limit that the command carries, is the caller's part.
//!
//! The tool answers a `get` in prose, possibly after warning lines. The value is
//! what follows the marker 值为 ("value is") on the last line that has text after it.

use vstd::prelude::*;
use vstd::string::*;
use crate::error::{AtxError, MiotOp};
use crate::text::{
    eq_ignore_ascii_case, is_whitespace, lemma_trim, range_eq_ignore_ascii_case, to_chars, trim,
    trim_bounds, trimmed,
};
use crate::types::{MiotConfig, PowerStatus};

verus! {

/// Seconds allowed to one run of the tool.
pub const COMMAND_TIMEOUT_SECS: u64 = 30;

/// Whether the marker stands in `s` at `i`.
pub open spec fn marker_at(s: Seq<char>, i: int) -> bool {
    0 <= i && i + 2 <= s.len() && s[i] == '值' && s[i + 1] == '为'
}

/// Where the marker stands last in `s`.
pub open spec fn last_marker(s: Seq<char>) -> Option<int>
    decreases s.len(),
{
    if s.len() < 2 {
        None
    } else if marker_at(s, s.len() - 2) {
        Some(s.len() - 2)
    } else {
        last_marker(s.drop_last())
    }
}

/// The value that one line carries: the text after its last marker, trimmed,
/// where that is not empty.
pub open spec fn line_value(line: Seq<char>) -> Option<Seq<char>> {
    match last_marker(line) {
        Some(p) => {
            let v = trim(line.subrange(p + 2, line.len() as int));
            if v.len() > 0 {
                Some(v)
            } else {
                None
            }
        },
        None => None,
    }
}

/// Where the last line of `s` starts: behind the last line feed, or at 0.
pub open spec fn last_line_start(s: Seq<char>) -> int
    decreases s.len(),
{
    if s.len() == 0 || s.last() == '\n' {
        s.len() as int
    } else {
        last_line_start(s.drop_last())
    }
}

/// The value that the output carries: that of the last line which carries one.
pub open spec fn parsed_value(out: Seq<char>) -> Option<Seq<char>>
    decreases out.len(),
{
    let start = last_line_start(out);
    let v = line_value(out.subrange(start, out.len() as int));
    if v is Some || start <= 0 || start > out.len() {
        v
    } else {
        parsed_value(out.subrange(0, start - 1))
    }
}

/// The status that the output tells: on where its value matches `on_value`
/// (the case of ASCII letters ignored), off where it is another value, unknown
/// where it carries none.
pub open spec fn parsed_status(out: Seq<char>, on_value: Seq<char>) -> PowerStatus {
    match parsed_value(out) {
        Some(v) => if eq_ignore_ascii_case(v, on_value) {
            PowerStatus::On
        } else {
            PowerStatus::Off
        },
        None => PowerStatus::Unknown,
    }
}

/// A marker with none behind it is the last one.
pub proof fn lemma_last_marker_found(s: Seq<char>, p: int)
    requires
        marker_at(s, p),
        forall|j: int| p < j ==> !marker_at(s, j),
    ensures
        last_marker(s) == Some(p),
    decreases s.len(),
{
    if !marker_at(s, s.len() - 2) {
        let t = s.drop_last();
        assert forall|j: int| p < j implies !marker_at(t, j) by {
            if marker_at(t, j) {
                assert(marker_at(s, j));
            }
        }
        lemma_last_marker_found(t, p);
    }
}

/// Where the marker stands nowhere, there is no last one.
pub proof fn lemma_last_marker_absent(s: Seq<char>)
    requires
        forall|j: int| !marker_at(s, j),
    ensures
        last_marker(s) is None,
    decreases s.len(),
{
    if s.len() >= 2 {
        let t = s.drop_last();
        assert forall|j: int| !marker_at(t, j) by {
            if marker_at(t, j) {
                assert(marker_at(s, j));
            }
        }
        lemma_last_marker_absent(t);
    }
}

/// The last line starts behind a line feed that no line feed follows.
pub proof fn lemma_last_line_start(s: Seq<char>, start: int)
    requires
        0 <= start <= s.len(),
        start == 0 || s[start - 1] == '\n',
        forall|j: int| start <= j < s.len() ==> s[j] != '\n',
    ensures
        last_line_start(s) == start,
    decreases s.len(),
{
    if start < s.len() {
        lemma_last_line_start(s.drop_last(), start);
    }
}

/// A value on the last line is the output's value, whatever stands before it.
pub proof fn lemma_last_line_wins(before: Seq<char>, line: Seq<char>)
    requires
        forall|j: int| 0 <= j < line.len() ==> line[j] != '\n',
        line_value(line) is Some,
    ensures
        parsed_value(before + seq!['\n'] + line) == line_value(line),
        parsed_value(line) == line_value(line),
{
    let out = before + seq!['\n'] + line;
    lemma_last_line_start(out, before.len() as int + 1);
    assert(out.subrange(before.len() as int + 1, out.len() as int) == line);
    lemma_last_line_start(line, 0);
    assert(line.subrange(0, line.len() as int) == line);
}

/// A last line without a value leaves the output's value to the lines before it.
pub proof fn lemma_last_line_skipped(before: Seq<char>, line: Seq<char>)
    requires
        forall|j: int| 0 <= j < line.len() ==> line[j] != '\n',
        line_value(line) is None,
    ensures
        parsed_value(before + seq!['\n'] + line) == parsed_value(before),
{
    let out = before + seq!['\n'] + line;
    lemma_last_line_start(out, before.len() as int + 1);
    assert(out.subrange(before.len() as int + 1, out.len() as int) == line);
    assert(out.subrange(0, before.len() as int) == before);
}

/// The value of an output is never empty, and neither starts nor ends with
/// whitespace.
pub proof fn lemma_value_is_trimmed(out: Seq<char>)
    ensures
        parsed_value(out) matches Some(v) ==> v.len() > 0 && !is_whitespace(v[0])
            && !is_whitespace(v.last()),
    decreases out.len(),
{
    let start = last_line_start(out);
    let line = out.subrange(start, out.len() as int);
    match last_marker(line) {
        Some(p) => {
            lemma_trim(line.subrange(p + 2, line.len() as int));
        },
        None => {},
    }
    if !(line_value(line) is Some || start <= 0 || start > out.len()) {
        lemma_value_is_trimmed(out.subrange(0, start - 1));
    }
}

/// The last line starts within the text.
pub proof fn lemma_last_line_start_in_range(s: Seq<char>)
    ensures
        0 <= last_line_start(s) <= s.len(),
    decreases s.len(),
{
    if !(s.len() == 0 || s.last() == '\n') {
        lemma_last_line_start_in_range(s.drop_last());
    }
}

/// An output without the marker carries no value.
pub proof fn lemma_no_marker_no_value(out: Seq<char>)
    requires
        forall|j: int| !marker_at(out, j),
    ensures
        parsed_value(out) is None,
    decreases out.len(),
{
    let start = last_line_start(out);
    lemma_last_line_start_in_range(out);
    let line = out.subrange(start, out.len() as int);
    assert forall|j: int| !marker_at(line, j) by {
        if marker_at(line, j) {
            assert(marker_at(out, start + j));
        }
    }
    lemma_last_marker_absent(line);
    if start > 0 {
        let before = out.subrange(0, start - 1);
        assert forall|j: int| !marker_at(before, j) by {
            if marker_at(before, j) {
                assert(marker_at(out, j));
            }
        }
        lemma_no_marker_no_value(before);
    }
}

/// Where the marker stands last in `s[lo..hi]`.
fn rfind_marker(s: &Vec<char>, lo: usize, hi: usize) -> (r: Option<usize>)
    requires
        lo <= hi <= s.len(),
    ensures
        match r {
            Some(p) => lo <= p && p + 2 <= hi && last_marker(s@.subrange(lo as int, hi as int))
                == Some(p - lo),
            None => last_marker(s@.subrange(lo as int, hi as int)) is None,
        },
{
    let ghost line = s@.subrange(lo as int, hi as int);
    if hi - lo < 2 {
        return None;
    }
    let mut p: usize = hi - 1;
    while p > lo
        invariant
            lo <= p < hi <= s.len(),
            line == s@.subrange(lo as int, hi as int),
            forall|j: int| p - lo <= j ==> !marker_at(line, j),
        decreases p,
    {
        p -= 1;
        if s[p] == '值' && s[p + 1] == '为' {
            proof {
                lemma_last_marker_found(line, p - lo);
            }
            return Some(p);
        }
    }
    proof {
        lemma_last_marker_absent(line);
    }
    None
}

/// The bounds of the value that the line `s[lo..hi]` carries.
fn line_value_bounds(s: &Vec<char>, lo: usize, hi: usize) -> (r: Option<(usize, usize)>)
    requires
        lo <= hi <= s.len(),
    ensures
        match r {
            Some((a, b)) => lo <= a < b <= hi && line_value(s@.subrange(lo as int, hi as int))
                == Some(s@.subrange(a as int, b as int)),
            None => line_value(s@.subrange(lo as int, hi as int)) is None,
        },
{
    let ghost line = s@.subrange(lo as int, hi as int);
    match rfind_marker(s, lo, hi) {
        Some(p) => {
            let (a, b) = trim_bounds(s, p + 2, hi);
            assert(line.subrange(p - lo + 2, line.len() as int) == s@.subrange(
                p + 2,
                hi as int,
            ));
            if a < b {
                Some((a, b))
            } else {
                None
            }
        },
        None => None,
    }
}

/// The bounds of the value that the output carries.
fn value_bounds(s: &Vec<char>) -> (r: Option<(usize, usize)>)
    ensures
        match r {
            Some((a, b)) => a < b <= s.len() && parsed_value(s@) == Some(
                s@.subrange(a as int, b as int),
            ),
            None => parsed_value(s@) is None,
        },
{
    let mut end: usize = s.len();
    assert(s@.subrange(0, end as int) == s@);
    loop
        invariant
            end <= s.len(),
            parsed_value(s@) == parsed_value(s@.subrange(0, end as int)),
        decreases end,
    {
        let ghost out = s@.subrange(0, end as int);
        let mut start: usize = end;
        while start > 0 && s[start - 1] != '\n'
            invariant
                start <= end <= s.len(),
                forall|j: int| start <= j < end ==> s@[j] != '\n',
            decreases start,
        {
            start -= 1;
        }
        proof {
            lemma_last_line_start(out, start as int);
            assert(out.subrange(start as int, out.len() as int) == s@.subrange(
                start as int,
                end as int,
            ));
        }
        match line_value_bounds(s, start, end) {
            Some(found) => {
                return Some(found);
            },
            None => {
                if start == 0 {
                    return None;
                }
                assert(out.subrange(0, start - 1) == s@.subrange(0, start - 1));
                end = start - 1;
            },
        }
    }
}

/// Extracts the value from the tool's output.
///
/// Lines are read from the last to the first; the first that has text after its
/// last marker gives the value, trimmed. `None` where no line has.
pub fn parse_value_from_output(output: &str) -> (r: Option<String>)
    ensures
        match r {
            Some(v) => parsed_value(output@) == Some(v@),
            None => parsed_value(output@) is None,
        },
{
    let chars = to_chars(output);
    match value_bounds(&chars) {
        Some((a, b)) => Some(output.substring_char(a, b).to_owned()),
        None => None,
    }
}

/// Reads the power status from the tool's output.
pub fn parse_power_status(output: &str, on_value: &str) -> (r: PowerStatus)
    ensures
        r == parsed_status(output@, on_value@),
{
    let chars = to_chars(output);
    match value_bounds(&chars) {
        Some((a, b)) => {
            let on = to_chars(on_value);
            if range_eq_ignore_ascii_case(&chars, a, b, &on) {
                PowerStatus::On
            } else {
                PowerStatus::Off
            }
        },
        None => PowerStatus::Unknown,
    }
}

/// One run of the tool: what to start, with which arguments, and for how long at
/// most. Its standard input is closed, its output captured; past the time limit
/// it is killed.
#[derive(Debug, PartialEq, Eq)]
pub struct MiotCommand {
    /// The tool to run.
    pub program: String,
    /// Its arguments.
    pub args: Vec<String>,
    /// Seconds allowed to the run.
    pub timeout_secs: u64,
}

impl MiotCommand {
    /// The arguments as texts.
    pub open spec fn arg_texts(&self) -> Seq<Seq<char>> {
        Seq::new(self.args@.len(), |i: int| self.args@[i]@)
    }
}

/// The arguments that read `prop` of the plug `did`.
pub open spec fn get_args(did: Seq<char>, prop: Seq<char>) -> Seq<Seq<char>> {
    seq!["get"@, "--did"@, did, "--prop_name"@, prop]
}

/// The arguments that write `value` to `prop` of the plug `did`.
pub open spec fn set_args(did: Seq<char>, prop: Seq<char>, value: Seq<char>) -> Seq<Seq<char>> {
    seq!["set"@, "--did"@, did, "--prop_name"@, prop, "--value"@, value]
}

/// How one run of the tool ended.
#[derive(Debug, PartialEq, Eq)]
pub enum CommandOutcome {
    /// The tool could not be started.
    SpawnFailed {
        /// What the system said.
        reason: String,
    },
    /// The time limit passed and the tool was killed.
    TimedOut,
    /// Waiting for the tool failed.
    WaitFailed {
        /// What the system said.
        reason: String,
    },
    /// The tool ended.
    Exited {
        /// Its exit code; none where a signal ended it.
        code: Option<i32>,
        /// What it wrote to its standard output.
        stdout: String,
        /// What it wrote to its standard error.
        stderr: String,
    },
}

impl CommandOutcome {
    /// The tool ended with exit code 0.
    pub open spec fn succeeded(&self) -> bool {
        self matches CommandOutcome::Exited { code, .. } && code == Some(0i32)
    }

    /// Whether the tool ended with exit code 0.
    #[verifier::when_used_as_spec(succeeded)]
    pub fn is_success(&self) -> (b: bool)
        ensures
            b == self.succeeded(),
    {
        match self {
            CommandOutcome::Exited { code: Some(c), .. } => *c == 0,
            _ => false,
        }
    }
}

/// The exit code that an error carries: that of the tool, or -1 where it ended
/// without one.
pub open spec fn reported_code(code: Option<i32>) -> i32 {
    match code {
        Some(c) => c,
        None => -1i32,
    }
}

/// `e` reports a run of `command`, made for `op`, that did not come to an end of
/// its own: it could not be started, ran out of time, or could not be waited
/// for.
pub open spec fn reports_run(
    command: String,
    op: MiotOp,
    outcome: CommandOutcome,
    e: AtxError,
) -> bool {
    match outcome {
        CommandOutcome::SpawnFailed { reason } => e == (AtxError::SpawnFailed { command, reason }),
        CommandOutcome::TimedOut => e == (AtxError::Timeout { op, secs: COMMAND_TIMEOUT_SECS }),
        CommandOutcome::WaitFailed { reason } => e == (AtxError::WaitFailed { op, reason }),
        CommandOutcome::Exited { .. } => false,
    }
}

/// `e` reports the failed run `outcome` of a read: the exit code and the
/// trimmed output where the tool ended with a status other than 0.
pub open spec fn reports_get(command: String, outcome: CommandOutcome, e: AtxError) -> bool {
    match outcome {
        CommandOutcome::Exited { code, stdout, stderr } => {
            &&& code != Some(0i32)
            &&& e matches AtxError::GetFailed { exit_code, stdout: out, stderr: err }
            &&& exit_code == reported_code(code)
            &&& out@ == trim(stdout@)
            &&& err@ == trim(stderr@)
        },
        _ => reports_run(command, MiotOp::GetProp, outcome, e),
    }
}

/// `e` reports the failed run `outcome` of a write of `value` to `prop`: these
/// two, the exit code and the trimmed output where the tool ended with a status
/// other than 0.
pub open spec fn reports_set(
    command: String,
    prop: Seq<char>,
    value: Seq<char>,
    outcome: CommandOutcome,
    e: AtxError,
) -> bool {
    match outcome {
        CommandOutcome::Exited { code, stdout, stderr } => {
            &&& code != Some(0i32)
            &&& e matches AtxError::SetFailed {
                prop: p,
                value: v,
                exit_code,
                stdout: out,
                stderr: err,
            }
            &&& p@ == prop
            &&& v@ == value
            &&& exit_code == reported_code(code)
            &&& out@ == trim(stdout@)
            &&& err@ == trim(stderr@)
        },
        _ => reports_run(command, MiotOp::SetProp, outcome, e),
    }
}

/// What a smart-plug backend is: its connection settings, and whether it is
/// ready.
pub struct MiotState {
    /// The connection settings.
    pub config: MiotConfig,
    /// Whether the backend is ready.
    pub initialized: bool,
}

impl MiotState {
    /// The state after `init`: ready where the connection is configured.
    pub open spec fn after_init(self) -> MiotState {
        MiotState { config: self.config, initialized: self.initialized || self.config.configured() }
    }

    /// The state after `shutdown`: not ready.
    pub open spec fn after_shutdown(self) -> MiotState {
        MiotState { config: self.config, initialized: false }
    }

    /// `c` is the run that reads `prop` of this backend's plug.
    pub open spec fn reads(self, c: MiotCommand, prop: Seq<char>) -> bool {
        &&& c.program == self.config.command
        &&& c.arg_texts() == get_args(self.config.did@, prop)
        &&& c.timeout_secs == COMMAND_TIMEOUT_SECS
    }

    /// `c` is the run that writes `value` to `prop` of this backend's plug.
    pub open spec fn writes(self, c: MiotCommand, prop: Seq<char>, value: Seq<char>) -> bool {
        &&& c.program == self.config.command
        &&& c.arg_texts() == set_args(self.config.did@, prop, value)
        &&& c.timeout_secs == COMMAND_TIMEOUT_SECS
    }

    /// The status that a status query ends with, given the outcome of its run:
    /// unknown where the backend is not ready or the run failed, else what the
    /// output tells.
    pub open spec fn sensed(self, on_value: Seq<char>, outcome: CommandOutcome) -> PowerStatus {
        if !self.initialized {
            PowerStatus::Unknown
        } else {
            match outcome {
                CommandOutcome::Exited { code, stdout, stderr } => if code == Some(0i32) {
                    parsed_status(stdout@, on_value)
                } else {
                    PowerStatus::Unknown
                },
                _ => PowerStatus::Unknown,
            }
        }
    }
}

/// Backend for a key or a status that is bound to the smart plug.
///
/// It starts not ready. `init` makes it ready where the connection is
/// configured; `shutdown` makes it not ready again.
#[derive(Debug)]
pub struct MiotBackend {
    config: MiotConfig,
    initialized: bool,
}

impl View for MiotBackend {
    type V = MiotState;

    closed spec fn view(&self) -> MiotState {
        MiotState { config: self.config, initialized: self.initialized }
    }
}

impl MiotBackend {
    /// A backend for the plug of `config`, not ready yet.
    pub fn new(config: MiotConfig) -> (r: Self)
        ensures
            r@ == (MiotState { config, initialized: false }),
    {
        MiotBackend { config, initialized: false }
    }

    /// Whether the connection is configured.
    pub fn is_configured(&self) -> (b: bool)
        ensures
            b == self@.config.configured(),
    {
        self.config.is_configured()
    }

    /// Whether the backend is ready.
    pub fn is_initialized(&self) -> (b: bool)
        ensures
            b == self@.initialized,
    {
        self.initialized
    }

    /// The connection settings.
    pub fn config(&self) -> (c: &MiotConfig)
        ensures
            *c == self@.config,
    {
        &self.config
    }

    /// Makes the backend ready, without reaching for the plug. Where the
    /// connection is not configured the backend stays as it is, and the call
    /// still succeeds.
    pub fn init(&mut self) -> (r: Result<(), AtxError>)
        ensures
            r is Ok,
            final(self)@ == old(self)@.after_init(),
    {
        if !self.config.is_configured() {
            return Ok(());
        }
        self.initialized = true;
        Ok(())
    }

    /// Makes the backend not ready. A run that is under way is not touched.
    pub fn shutdown(&mut self) -> (r: Result<(), AtxError>)
        ensures
            r is Ok,
            final(self)@ == old(self)@.after_shutdown(),
    {
        self.initialized = false;
        Ok(())
    }

    /// The run that reads `prop`.
    pub fn get_command(&self, prop: &str) -> (c: MiotCommand)
        ensures
            self@.reads(c, prop@),
    {
        let mut args: Vec<String> = Vec::new();
        args.push("get".to_owned());
        args.push("--did".to_owned());
        args.push(self.config.did.clone());
        args.push("--prop_name".to_owned());
        args.push(prop.to_owned());
        let c = MiotCommand {
            program: self.config.command.clone(),
            args,
            timeout_secs: COMMAND_TIMEOUT_SECS,
        };
        assert(c.arg_texts() =~= get_args(self@.config.did@, prop@));
        c
    }

    /// The run that writes `value` to `prop`.
    pub fn set_command(&self, prop: &str, value: &str) -> (c: MiotCommand)
        ensures
            self@.writes(c, prop@, value@),
    {
        let mut args: Vec<String> = Vec::new();
        args.push("set".to_owned());
        args.push("--did".to_owned());
        args.push(self.config.did.clone());
        args.push("--prop_name".to_owned());
        args.push(prop.to_owned());
        args.push("--value".to_owned());
        args.push(value.to_owned());
        let c = MiotCommand {
            program: self.config.command.clone(),
            args,
            timeout_secs: COMMAND_TIMEOUT_SECS,
        };
        assert(c.arg_texts() =~= set_args(self@.config.did@, prop@, value@));
        c
    }

    /// The run that a status query of `prop` makes: none while the backend is not
    /// ready.
    pub fn status_command(&self, prop: &str) -> (c: Option<MiotCommand>)
        ensures
            c is Some <==> self@.initialized,
            c matches Some(c) ==> self@.reads(c, prop@),
    {
        if self.initialized {
            Some(self.get_command(prop))
        } else {
            None
        }
    }

    /// The error that reports a run which did not come to an end of its own.
    fn run_failure(&self, op: MiotOp, outcome: &CommandOutcome) -> (e: AtxError)
        requires
            !(outcome is Exited),
        ensures
            reports_run(self@.config.command, op, *outcome, e),
    {
        match outcome {
            CommandOutcome::SpawnFailed { reason } => AtxError::SpawnFailed {
                command: self.config.command.clone(),
                reason: reason.clone(),
            },
            CommandOutcome::WaitFailed { reason } => AtxError::WaitFailed {
                op,
                reason: reason.clone(),
            },
            _ => AtxError::Timeout { op, secs: COMMAND_TIMEOUT_SECS },
        }
    }

    /// The error that reports a failed read.
    fn get_failure(&self, outcome: &CommandOutcome) -> (e: AtxError)
        requires
            !outcome.succeeded(),
        ensures
            reports_get(self@.config.command, *outcome, e),
    {
        match outcome {
            CommandOutcome::Exited { code, stdout, stderr } => AtxError::GetFailed {
                exit_code: match code {
                    Some(c) => *c,
                    None => -1,
                },
                stdout: trimmed(stdout.as_str()),
                stderr: trimmed(stderr.as_str()),
            },
            _ => self.run_failure(MiotOp::GetProp, outcome),
        }
    }

    /// Ends a write of `value` to `prop`, given the outcome of the run of
    /// `set_command`: done where the tool ended with exit code 0, else the error
    /// that reports the run.
    pub fn set_prop(&self, prop: &str, value: &str, outcome: &CommandOutcome) -> (r: Result<
        (),
        AtxError,
    >)
        ensures
            r is Ok <==> outcome.succeeded(),
            r matches Err(e) ==> reports_set(self@.config.command, prop@, value@, *outcome, e),
    {
        match outcome {
            CommandOutcome::Exited { code, stdout, stderr } => {
                if outcome.is_success() {
                    Ok(())
                } else {
                    Err(
                        AtxError::SetFailed {
                            prop: prop.to_owned(),
                            value: value.to_owned(),
                            exit_code: match code {
                                Some(c) => *c,
                                None => -1,
                            },
                            stdout: trimmed(stdout.as_str()),
                            stderr: trimmed(stderr.as_str()),
                        },
                    )
                }
            },
            _ => Err(self.run_failure(MiotOp::SetProp, outcome)),
        }
    }

    /// Ends a read, given the outcome of the run of `get_command`: the value
    /// that the output carries where the tool ended with exit code 0. A run that
    /// failed, and an output without a value, are errors.
    pub fn get_prop(&self, outcome: &CommandOutcome) -> (r: Result<String, AtxError>)
        ensures
            match r {
                Ok(v) => outcome.succeeded() && parsed_value(outcome->stdout@) == Some(v@),
                Err(e) => if outcome.succeeded() {
                    &&& parsed_value(outcome->stdout@) is None
                    &&& e matches AtxError::NoValue { stdout }
                    &&& stdout@ == trim(outcome->stdout@)
                } else {
                    reports_get(self@.config.command, *outcome, e)
                },
            },
    {
        match outcome {
            CommandOutcome::Exited { code: Some(c), stdout, .. } if *c == 0 => {
                match parse_value_from_output(stdout.as_str()) {
                    Some(v) => Ok(v),
                    None => Err(AtxError::NoValue { stdout: trimmed(stdout.as_str()) }),
                }
            },
            _ => Err(self.get_failure(outcome)),
        }
    }

    /// Ends a status query, given the outcome of the run of `status_command`.
    /// While the backend is not ready the status is unknown and `outcome` is not
    /// looked at. Else a run that failed is an error, and an output tells the
    /// status: on where its value matches `on_value`, off where it is another,
    /// unknown where it carries none.
    pub fn get_power_status(&self, on_value: &str, outcome: &CommandOutcome) -> (r: Result<
        PowerStatus,
        AtxError,
    >)
        ensures
            r is Ok <==> !self@.initialized || outcome.succeeded(),
            r matches Ok(s) ==> s == self@.sensed(on_value@, *outcome),
            r matches Err(e) ==> reports_get(self@.config.command, *outcome, e),
    {
        if !self.initialized {
            return Ok(PowerStatus::Unknown);
        }
        match outcome {
            CommandOutcome::Exited { code: Some(c), stdout, .. } if *c == 0 => {
                Ok(parse_power_status(stdout.as_str(), on_value))
            },
            _ => Err(self.get_failure(outcome)),
        }
    }
}

} // verus!
