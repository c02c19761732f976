//! A small logging library: a `Logger` carries a display name, an optional
//! target file path and a timezone choice, and every operation formats one
//! line `<name> - ["<timestamp>"]: <message>` (error lines carry an
//! `ERROR: ` prefix). Console operations print the line; file operations
//! build the new file content out of the old one, appending `"\n"` and the
//! line, and reject a logger that was built without a file path.

use std::io::Write;
use vstd::prelude::*;
use vstd::string::StringExecFns;

verus! {

/// The one recoverable failure: a file-targeted operation on a logger that
/// was built without a file path.
#[derive(Debug, Clone, Copy, PartialEq, Eq, Structural)]
pub enum LogError {
    MissingFilePath,
}

/// Relies on chrono::Utc::now, rendered through its Display form
/// (date, time and the `UTC` suffix). The result depends on the clock,
/// so nothing is promised of it.
#[verifier::external_body]
fn now_utc_string() -> String {
    chrono::Utc::now().to_string()
}

/// Relies on chrono::Local::now, rendered through its Display form
/// (date, time and the local offset). The result depends on the clock and
/// on the machine's time zone, so nothing is promised of it.
#[verifier::external_body]
fn now_local_string() -> String {
    chrono::Local::now().to_string()
}

/// Relies on std::io::Stdout::write_fmt: prints the line, followed by a
/// newline, on standard output.
#[verifier::external_body]
fn print_line(s: &str) {
    let mut out = std::io::stdout();
    writeln!(out, "{}", s).expect("failed printing to stdout");
}

/// The current time as text, from the coordinated or the local clock.
fn current_time_string(use_utc: bool) -> String {
    if use_utc {
        now_utc_string()
    } else {
        now_local_string()
    }
}

/// The line an error-class operation prepends to every line it produces.
pub open spec fn error_prefix() -> Seq<char> {
    "ERROR: "@
}

/// The formatted log line: an optional `ERROR: ` prefix, the logger's name,
/// then the timestamp in quoted brackets, then the message.
pub open spec fn line_spec(is_error: bool, name: Seq<char>, ts: Seq<char>, msg: Seq<char>) -> Seq<
    char,
> {
    let plain = name + " - [\""@ + ts + "\"]: "@ + msg;
    if is_error {
        error_prefix() + plain
    } else {
        plain
    }
}

/// The file content after one file-targeted operation: the old content,
/// a single separating newline, then the new line. No trailing newline.
pub open spec fn appended_content_spec(old_content: Seq<char>, line: Seq<char>) -> Seq<char> {
    old_content + "\n"@ + line
}

/// Holds of the line a console operation produced: for some timestamp text,
/// it is the formatted line of this logger for the given message.
pub open spec fn is_line_for(line: Seq<char>, is_error: bool, name: Seq<char>, msg: Seq<char>) -> bool {
    exists|ts: Seq<char>| line == line_spec(is_error, name, ts, msg)
}

/// Holds of the content a file-targeted operation produced: for some
/// timestamp text, it is the old content with this logger's formatted line
/// for the given message appended.
pub open spec fn is_appended_for(
    content: Seq<char>,
    old_content: Seq<char>,
    is_error: bool,
    name: Seq<char>,
    msg: Seq<char>,
) -> bool {
    exists|ts: Seq<char>|
        content == appended_content_spec(old_content, line_spec(is_error, name, ts, msg))
}

/// A named logging destination: a display name, an optional path of the
/// target file, and whether timestamps use coordinated or local time.
#[derive(Debug)]
pub struct Logger {
    pub logger_name: String,
    pub file_log: Option<String>,
    pub use_utc: bool,
}

impl Logger {
    /// Builds a logger from its three fields. Touching the target file
    /// (creating it when absent, keeping its content otherwise) is I/O and
    /// is left to the caller, who writes back `initial_file_content` of
    /// what was found there.
    pub fn new(logger_name: String, file_log: Option<String>, use_utc: bool) -> (r: Logger)
        ensures
            r.logger_name == logger_name,
            r.file_log == file_log,
            r.use_utc == use_utc,
    {
        Logger { logger_name, file_log, use_utc }
    }

    /// The line a console or file operation produces for the given
    /// timestamp text and message.
    pub fn format_line(&self, is_error: bool, ts: &str, msg: &str) -> (r: String)
        ensures
            r@ == line_spec(is_error, self.logger_name@, ts@, msg@),
    {
        let mut r = String::new();
        if is_error {
            r.append("ERROR: ");
        }
        r.append(self.logger_name.as_str());
        r.append(" - [\"");
        r.append(ts);
        r.append("\"]: ");
        r.append(msg);
        proof {
            assert(r@ =~= line_spec(is_error, self.logger_name@, ts@, msg@));
        }
        r
    }

    /// The whole content of the target file after a file-targeted operation
    /// with the given timestamp text and message, built from the old
    /// content; rejected exactly when the logger has no file path.
    pub fn file_content_after(&self, is_error: bool, old_content: &str, ts: &str, msg: &str) -> (r:
        Result<String, LogError>)
        ensures
            r is Ok <==> self.file_log is Some,
            r is Ok ==> r->Ok_0@ == appended_content_spec(
                old_content@,
                line_spec(is_error, self.logger_name@, ts@, msg@),
            ),
            r is Err ==> r->Err_0 == LogError::MissingFilePath,
    {
        match &self.file_log {
            Some(_) => {
                let line = self.format_line(is_error, ts, msg);
                let mut content = String::from_str(old_content);
                content.append("\n");
                content.append(line.as_str());
                proof {
                    assert(content@ =~= appended_content_spec(old_content@, line@));
                }
                Ok(content)
            },
            None => Err(LogError::MissingFilePath),
        }
    }

    /// Prints one line on standard output, `<name> - ["<now>"]: <message>`,
    /// and returns it. Never touches the target file.
    pub fn log(&self, msg: &str) -> (line: String)
        ensures
            is_line_for(line@, false, self.logger_name@, msg@),
    {
        let ts = current_time_string(self.use_utc);
        let line = self.format_line(false, ts.as_str(), msg);
        print_line(line.as_str());
        proof {
            assert(line@ == line_spec(false, self.logger_name@, ts@, msg@));
        }
        line
    }

    /// Prints one line on standard output, as `log` does but with the
    /// `ERROR: ` prefix, and returns it. Never touches the target file.
    pub fn error(&self, msg: &str) -> (line: String)
        ensures
            is_line_for(line@, true, self.logger_name@, msg@),
    {
        let ts = current_time_string(self.use_utc);
        let line = self.format_line(true, ts.as_str(), msg);
        print_line(line.as_str());
        proof {
            assert(line@ == line_spec(true, self.logger_name@, ts@, msg@));
        }
        line
    }

    /// The target file's new content: the old content, a newline and the
    /// formatted line for the current time. Fails exactly when the logger
    /// has no file path, and prints nothing.
    pub fn log_to_file(&self, old_content: &str, msg: &str) -> (r: Result<String, LogError>)
        ensures
            r is Ok <==> self.file_log is Some,
            r is Ok ==> is_appended_for(r->Ok_0@, old_content@, false, self.logger_name@, msg@),
            r is Err ==> r->Err_0 == LogError::MissingFilePath,
    {
        let ts = current_time_string(self.use_utc);
        let r = self.file_content_after(false, old_content, ts.as_str(), msg);
        proof {
            if r is Ok {
                assert(r->Ok_0@ == appended_content_spec(
                    old_content@,
                    line_spec(false, self.logger_name@, ts@, msg@),
                ));
            }
        }
        r
    }

    /// As `log_to_file`, but the appended line carries the `ERROR: ` prefix.
    pub fn error_to_file(&self, old_content: &str, msg: &str) -> (r: Result<String, LogError>)
        ensures
            r is Ok <==> self.file_log is Some,
            r is Ok ==> is_appended_for(r->Ok_0@, old_content@, true, self.logger_name@, msg@),
            r is Err ==> r->Err_0 == LogError::MissingFilePath,
    {
        let ts = current_time_string(self.use_utc);
        let r = self.file_content_after(true, old_content, ts.as_str(), msg);
        proof {
            if r is Ok {
                assert(r->Ok_0@ == appended_content_spec(
                    old_content@,
                    line_spec(true, self.logger_name@, ts@, msg@),
                ));
            }
        }
        r
    }

    /// First the console line (printed and returned whatever the logger's
    /// file path is), then the file content, as `log` then `log_to_file`.
    pub fn log_and_log_to_file(&self, old_content: &str, msg: &str) -> (r: (
        String,
        Result<String, LogError>,
    ))
        ensures
            is_line_for(r.0@, false, self.logger_name@, msg@),
            r.1 is Ok <==> self.file_log is Some,
            r.1 is Ok ==> is_appended_for(r.1->Ok_0@, old_content@, false, self.logger_name@, msg@),
            r.1 is Err ==> r.1->Err_0 == LogError::MissingFilePath,
    {
        let line = self.log(msg);
        let content = self.log_to_file(old_content, msg);
        (line, content)
    }

    /// First the console error line (printed and returned whatever the
    /// logger's file path is), then the file content, as `error` then
    /// `error_to_file`.
    pub fn error_and_error_to_file(&self, old_content: &str, msg: &str) -> (r: (
        String,
        Result<String, LogError>,
    ))
        ensures
            is_line_for(r.0@, true, self.logger_name@, msg@),
            r.1 is Ok <==> self.file_log is Some,
            r.1 is Ok ==> is_appended_for(r.1->Ok_0@, old_content@, true, self.logger_name@, msg@),
            r.1 is Err ==> r.1->Err_0 == LogError::MissingFilePath,
    {
        let line = self.error(msg);
        let content = self.error_to_file(old_content, msg);
        (line, content)
    }
}

/// Every error-class line is the matching plain line with `ERROR: ` put in
/// front, so every error-class line begins with that prefix.
pub proof fn lemma_error_line_prefixed(name: Seq<char>, ts: Seq<char>, msg: Seq<char>)
    ensures
        line_spec(true, name, ts, msg) == error_prefix() + line_spec(false, name, ts, msg),
        error_prefix().is_prefix_of(line_spec(true, name, ts, msg)),
{
    let e = error_prefix();
    let plain = line_spec(false, name, ts, msg);
    assert(e =~= (e + plain).subrange(0, e.len() as int));
}

/// A line of a non-error operation never begins with `ERROR: `, as long as
/// the logger's name does not itself open the line that way.
pub proof fn lemma_plain_line_unprefixed(name: Seq<char>, ts: Seq<char>, msg: Seq<char>)
    requires
        !error_prefix().is_prefix_of(name + " - [\""@),
    ensures
        !error_prefix().is_prefix_of(line_spec(false, name, ts, msg)),
{
    reveal_strlit("ERROR: ");
    reveal_strlit(" - [\"");
    let e = error_prefix();
    let pre = name + " - [\""@;
    let line = line_spec(false, name, ts, msg);
    assert(forall|i: int| 0 <= i < pre.len() ==> line[i] == pre[i]);
    if e.is_prefix_of(line) {
        assert(forall|i: int| 0 <= i < e.len() ==> e[i] == line[i]);
        if pre.len() >= e.len() {
            assert(e =~= pre.subrange(0, e.len() as int));
            assert(false);
        } else if name.len() == 1 {
            assert(line[1] == ' ');
            assert(e[1] == 'R');
            assert(false);
        } else {
            assert(name.len() == 0);
            assert(line[0] == ' ');
            assert(e[0] == 'E');
            assert(false);
        }
    }
}

/// Every line an error-class console operation produces begins with
/// `ERROR: `.
pub proof fn lemma_error_op_line_prefixed(line: Seq<char>, name: Seq<char>, msg: Seq<char>)
    requires
        is_line_for(line, true, name, msg),
    ensures
        error_prefix().is_prefix_of(line),
{
    let ts = choose|ts: Seq<char>| line == line_spec(true, name, ts, msg);
    lemma_error_line_prefixed(name, ts, msg);
}

/// No line a non-error console operation produces begins with `ERROR: `,
/// as long as the logger's name does not itself open the line that way.
pub proof fn lemma_plain_op_line_unprefixed(line: Seq<char>, name: Seq<char>, msg: Seq<char>)
    requires
        is_line_for(line, false, name, msg),
        !error_prefix().is_prefix_of(name + " - [\""@),
    ensures
        !error_prefix().is_prefix_of(line),
{
    let ts = choose|ts: Seq<char>| line == line_spec(false, name, ts, msg);
    lemma_plain_line_unprefixed(name, ts, msg);
}

/// The line an error-class file operation appends — what stands after the
/// old content and the separating newline — begins with `ERROR: `.
pub proof fn lemma_error_file_line_prefixed(
    content: Seq<char>,
    old_content: Seq<char>,
    name: Seq<char>,
    msg: Seq<char>,
)
    requires
        is_appended_for(content, old_content, true, name, msg),
    ensures
        content.len() > old_content.len() + 1,
        error_prefix().is_prefix_of(
            content.subrange(old_content.len() as int + 1, content.len() as int),
        ),
{
    reveal_strlit("\n");
    let ts = choose|ts: Seq<char>|
        content == appended_content_spec(old_content, line_spec(true, name, ts, msg));
    let line = line_spec(true, name, ts, msg);
    reveal_strlit("ERROR: ");
    assert(line.len() >= error_prefix().len());
    assert(line =~= content.subrange(old_content.len() as int + 1, content.len() as int));
    lemma_error_line_prefixed(name, ts, msg);
}

/// A file-targeted operation only grows the file: the old content stays as
/// an unchanged prefix of the new content, one separator and one line longer.
pub proof fn lemma_append_only(old_content: Seq<char>, line: Seq<char>)
    ensures
        old_content.is_prefix_of(appended_content_spec(old_content, line)),
        appended_content_spec(old_content, line).len() == old_content.len() + 1 + line.len(),
{
    reveal_strlit("\n");
    let appended = appended_content_spec(old_content, line);
    assert(old_content =~= appended.subrange(0, old_content.len() as int));
}

/// The content the constructor writes back to the target file: exactly the
/// existing content where the file was present, empty where it was absent.
pub fn initial_file_content(existing: Option<String>) -> (r: String)
    ensures
        existing is Some ==> r@ == existing->0@,
        existing is None ==> r@ == Seq::<char>::empty(),
{
    match existing {
        Some(content) => content,
        None => String::new(),
    }
}

} // verus!
