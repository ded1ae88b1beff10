//! Command outputs, logs built from them, command lexing and log sanitizing.
use vstd::prelude::*;

use crate::text::{chars_of, push_decimal, push_str, string_of, decimal};

verus! {

/// How a command string is run: lexed and run directly, wrapped in the shell,
/// or parsed from several lines and chained in the shell.
pub enum KomodoCommandMode {
    Standard,
    Shell,
    Multiline,
}

/// The outcome of running a command: its exit code (none when it did not exit
/// normally or never ran) and what it wrote.
#[derive(Debug, Clone)]
pub struct CommandOutput {
    pub code: Option<i32>,
    pub stdout: String,
    pub stderr: String,
}

/// A command counts as successful exactly when it exited with code 0.
pub open spec fn output_success(o: CommandOutput) -> bool {
    o.code == Some(0i32)
}

/// The message a timed-out command reports on stderr.
pub open spec fn timeout_message(timeout_ms: u64) -> Seq<char> {
    "Command timed out after "@ + decimal(timeout_ms as nat) + " ms"@
}

impl CommandOutput {
    pub fn success(&self) -> (r: bool)
        ensures
            r == output_success(*self),
    {
        match self.code {
            Some(c) => c == 0,
            None => false,
        }
    }

    /// The output of a command that could not be run: no exit code, the error
    /// on stderr.
    pub fn from_err(error: String) -> (r: CommandOutput)
        ensures
            r.code is None,
            r.stdout@ == Seq::<char>::empty(),
            r.stderr@ == error@,
    {
        CommandOutput { code: None, stdout: String::new(), stderr: error }
    }

    /// The output of a command stopped after `timeout_ms` milliseconds.
    pub fn from_timeout(timeout_ms: u64) -> (r: CommandOutput)
        ensures
            r.code is None,
            r.stdout@ == Seq::<char>::empty(),
            r.stderr@ == timeout_message(timeout_ms),
    {
        let mut msg: Vec<char> = Vec::new();
        push_str(&mut msg, "Command timed out after ");
        push_decimal(&mut msg, timeout_ms);
        push_str(&mut msg, " ms");
        CommandOutput { code: None, stdout: String::new(), stderr: string_of(&msg) }
    }
}

/// A command's output together with stdout and stderr interleaved in the order
/// they were written.
#[derive(Debug, Clone)]
pub struct MergedCommandOutput {
    pub output: CommandOutput,
    pub merged_output: String,
}

impl MergedCommandOutput {
    pub fn from_err(error: String) -> (r: MergedCommandOutput)
        ensures
            r.output.code is None,
            r.output.stdout@ == Seq::<char>::empty(),
            r.output.stderr@ == error@,
            r.merged_output@ == Seq::<char>::empty(),
    {
        MergedCommandOutput { output: CommandOutput::from_err(error), merged_output: String::new() }
    }

    pub fn from_timeout(timeout_ms: u64) -> (r: MergedCommandOutput)
        ensures
            r.output.code is None,
            r.output.stdout@ == Seq::<char>::empty(),
            r.output.stderr@ == timeout_message(timeout_ms),
            r.merged_output@ == Seq::<char>::empty(),
    {
        MergedCommandOutput {
            output: CommandOutput::from_timeout(timeout_ms),
            merged_output: String::new(),
        }
    }
}

/// One stage of an operation as shown to users.
#[derive(Debug, Clone)]
pub struct Log {
    pub stage: String,
    pub command: String,
    pub stdout: String,
    pub stderr: String,
    pub success: bool,
    pub start_ts: i64,
    pub end_ts: i64,
}

impl Log {
    /// A successful stage that reports `message` on stdout, at time `ts`.
    pub fn simple(stage: String, message: String, ts: i64) -> (r: Log)
        ensures
            r.stage@ == stage@,
            r.command@.len() == 0,
            r.stdout@ == message@,
            r.stderr@.len() == 0,
            r.success,
            r.start_ts == ts,
            r.end_ts == ts,
    {
        Log { stage, command: String::new(), stdout: message, stderr: String::new(), success: true, start_ts: ts, end_ts: ts }
    }

    /// A failed stage that reports `message` on stderr, at time `ts`.
    pub fn error(stage: String, message: String, ts: i64) -> (r: Log)
        ensures
            r.stage@ == stage@,
            r.command@.len() == 0,
            r.stdout@.len() == 0,
            r.stderr@ == message@,
            !r.success,
            r.start_ts == ts,
            r.end_ts == ts,
    {
        Log { stage, command: String::new(), stdout: String::new(), stderr: message, success: false, start_ts: ts, end_ts: ts }
    }
}

/// The current time in milliseconds since the Unix epoch
/// (`SystemTime::now`).
#[verifier::external_body]
pub(crate) fn timestamp_ms() -> i64 {
    let now = std::time::SystemTime::now();
    match now.duration_since(std::time::UNIX_EPOCH) {
        Ok(elapsed) => elapsed.as_millis() as i64,
        Err(_) => 0,
    }
}

/// Builds the log of a finished command; it ends at the current time.
pub fn output_into_log(stage: &str, command: String, start_ts: i64, output: CommandOutput) -> (r: Log)
    ensures
        r.stage@ == stage@,
        r.command@ == command@,
        r.stdout@ == output.stdout@,
        r.stderr@ == output.stderr@,
        r.success == output_success(output),
        r.start_ts == start_ts,
{
    let success = output.success();
    let stage_chars = chars_of(stage);
    Log {
        stage: string_of(&stage_chars),
        stdout: output.stdout,
        stderr: output.stderr,
        command,
        success,
        start_ts,
        end_ts: timestamp_ms(),
    }
}

// ----- lexing a command into program and arguments -----

/// What `shlex::split` returns for a command line: the words, or none when the
/// line cannot be lexed (an unclosed quote, a trailing backslash).
pub uninterp spec fn shlex_split(command: Seq<char>) -> Option<Seq<Seq<char>>>;

pub open spec fn strings_view(v: Seq<String>) -> Seq<Seq<char>> {
    v.map_values(|s: String| s@)
}

/// Splits a command line into words as a POSIX shell would (`shlex::split`).
#[verifier::external_body]
fn shlex_split_words(command: &str) -> (r: Option<Vec<String>>)
    ensures
        match r {
            Some(words) => shlex_split(command@) == Some(strings_view(words@)),
            None => shlex_split(command@) is None,
        },
{
    shlex::split(command)
}

/// The message for a command with nothing to run.
pub open spec fn empty_command_message() -> Seq<char> {
    "Command lexed into empty args"@
}

/// Decides what to run from the lexed words: the first word is the program,
/// the rest its arguments; a line that does not lex, or lexes to no words, is
/// refused with an error output.
pub fn program_and_args(lexed: Option<Vec<String>>) -> (r: Result<Vec<String>, CommandOutput>)
    ensures
        match lexed {
            Some(words) if words.len() > 0 => r == Ok::<Vec<String>, CommandOutput>(words),
            _ => r matches Err(out) && out.code is None && out.stdout@.len() == 0
                && out.stderr@ == empty_command_message(),
        },
{
    match lexed {
        Some(words) => {
            if words.len() > 0 {
                Ok(words)
            } else {
                Err(CommandOutput::from_err(string_of(&chars_of("Command lexed into empty args"))))
            }
        },
        None => Err(CommandOutput::from_err(string_of(&chars_of("Command lexed into empty args")))),
    }
}

/// Lexes a command line that is run directly (not through a shell).
pub fn lex_command(command: &str) -> (r: Result<Vec<String>, CommandOutput>)
    ensures
        match shlex_split(command@) {
            Some(words) if words.len() > 0 => r matches Ok(v) && strings_view(v@) == words,
            _ => r matches Err(out) && out.code is None && out.stderr@ == empty_command_message(),
        },
{
    let lexed = shlex_split_words(command);
    program_and_args(lexed)
}

// ----- choosing the shell -----

/// The shell to wrap commands in: the first of /bin/bash, /usr/bin/bash,
/// /bin/sh, /usr/bin/sh that exists, else `sh` looked up by name.
pub open spec fn chosen_shell(bash: bool, usr_bash: bool, sh: bool, usr_sh: bool) -> Seq<char> {
    if bash {
        "/bin/bash"@
    } else if usr_bash {
        "/usr/bin/bash"@
    } else if sh {
        "/bin/sh"@
    } else if usr_sh {
        "/usr/bin/sh"@
    } else {
        "sh"@
    }
}

/// Picks the shell given which of the candidate paths exist.
pub fn shell(bash: bool, usr_bash: bool, sh: bool, usr_sh: bool) -> (r: &'static str)
    ensures
        r@ == chosen_shell(bash, usr_bash, sh, usr_sh),
{
    if bash {
        "/bin/bash"
    } else if usr_bash {
        "/usr/bin/bash"
    } else if sh {
        "/bin/sh"
    } else if usr_sh {
        "/usr/bin/sh"
    } else {
        "sh"
    }
}

// ----- hiding secrets in logs -----

/// `str::replace`: every non-overlapping occurrence of `pat`, scanning from
/// the left, is replaced by `rep`. An empty pattern occurs at every character
/// boundary, so `rep` then goes before each character and at the end.
pub open spec fn replace_all(s: Seq<char>, pat: Seq<char>, rep: Seq<char>) -> Seq<char>
    decreases s.len(),
{
    if pat.len() == 0 {
        if s.len() == 0 {
            rep
        } else {
            rep + seq![s[0]] + replace_all(s.drop_first(), pat, rep)
        }
    } else if s.len() == 0 {
        s
    } else if pat.len() <= s.len() && s.subrange(0, pat.len() as int) == pat {
        rep + replace_all(s.skip(pat.len() as int), pat, rep)
    } else {
        seq![s[0]] + replace_all(s.drop_first(), pat, rep)
    }
}

/// The placeholder that hides a secret: its name in angle brackets.
pub open spec fn placeholder(name: Seq<char>) -> Seq<char> {
    seq!['<'] + name + seq!['>']
}

/// Each (secret, name) pair in turn replaces every occurrence of the secret by
/// `<name>`.
pub open spec fn replace_in(s: Seq<char>, replacers: Seq<(Seq<char>, Seq<char>)>) -> Seq<char>
    decreases replacers.len(),
{
    if replacers.len() == 0 {
        s
    } else {
        replace_in(
            replace_all(s, replacers[0].0, placeholder(replacers[0].1)),
            replacers.drop_first(),
        )
    }
}

pub open spec fn pairs_view(v: Seq<(String, String)>) -> Seq<(Seq<char>, Seq<char>)> {
    v.map_values(|p: (String, String)| (p.0@, p.1@))
}

/// `svi::replace_in_string`: replaces, pair by pair, every occurrence of each
/// secret by its name in angle brackets (with `str::replace`).
#[verifier::external_body]
pub(crate) fn svi_replace_in_string(input: &str, replacers: &[(String, String)]) -> (r: String)
    ensures
        r@ == replace_in(input@, pairs_view(replacers@)),
{
    svi::replace_in_string(input, replacers)
}

/// Hides secrets in a log's command, stdout and stderr; other fields are kept.
pub fn sanitize_log(log: Log, replacers: &[(String, String)]) -> (r: Log)
    ensures
        r.command@ == replace_in(log.command@, pairs_view(replacers@)),
        r.stdout@ == replace_in(log.stdout@, pairs_view(replacers@)),
        r.stderr@ == replace_in(log.stderr@, pairs_view(replacers@)),
        r.stage == log.stage,
        r.success == log.success,
        r.start_ts == log.start_ts,
        r.end_ts == log.end_ts,
{
    let command = svi_replace_in_string(log.command.as_str(), replacers);
    let stdout = svi_replace_in_string(log.stdout.as_str(), replacers);
    let stderr = svi_replace_in_string(log.stderr.as_str(), replacers);
    Log { command, stdout, stderr, ..log }
}

/// The log of a command run with its secrets hidden: none when nothing ran
/// (a multiline command that is empty once parsed), otherwise the run's log
/// with the secrets hidden in its command, stdout and stderr.
pub fn sanitize_command_log(log: Option<Log>, replacers: &[(String, String)]) -> (r: Option<Log>)
    ensures
        log is None <==> r is None,
        log matches Some(l) ==> (r matches Some(s) && s.command@ == replace_in(l.command@, pairs_view(replacers@))
            && s.stdout@ == replace_in(l.stdout@, pairs_view(replacers@))
            && s.stderr@ == replace_in(l.stderr@, pairs_view(replacers@)) && s.stage == l.stage
            && s.success == l.success && s.start_ts == l.start_ts && s.end_ts == l.end_ts),
{
    match log {
        Some(l) => Some(sanitize_log(l, replacers)),
        None => None,
    }
}

} // verus!
