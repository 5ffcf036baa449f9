//! Log lines.  The logger formats and keeps them; the surrounding program
//! takes them out and prints them.

use vstd::prelude::*;
use vstd::string::StringExecFns;

use crate::types::{clone_strings, views};

verus! {

/// A named source of log lines.
#[derive(Debug, PartialEq, Eq)]
pub struct Logger {
    pub name: String,
    /// The lines that were logged and not taken out yet, oldest first.
    pub lines: Vec<String>,
}

/// What a [`Logger`] holds.
pub struct LoggerView {
    pub name: Seq<char>,
    pub lines: Seq<Seq<char>>,
}

impl View for Logger {
    type V = LoggerView;

    open spec fn view(&self) -> LoggerView {
        LoggerView { name: self.name@, lines: views(self.lines@) }
    }
}

/// A line: the coloured level, the logger's name in brackets, the message.
pub open spec fn spec_line(level: Seq<char>, name: Seq<char>, message: Seq<char>) -> Seq<char> {
    level + " ("@ + name + ") \u{203a} "@ + message
}

/// The level of an information, in green.
pub open spec fn info_level() -> Seq<char> {
    "\x1b[32mINFO\x1b[0m"@
}

/// The level of a warning, in yellow.
pub open spec fn warn_level() -> Seq<char> {
    "\x1b[33mWARN\x1b[0m"@
}

/// The level of an error, in red.
pub open spec fn error_level() -> Seq<char> {
    "\x1b[31mERROR\x1b[0m"@
}

/// The logger after one more line.
pub open spec fn spec_logged(l: LoggerView, level: Seq<char>, message: Seq<char>) -> LoggerView {
    LoggerView { lines: l.lines.push(spec_line(level, l.name, message)), ..l }
}

impl Logger {
    /// A logger of this name that has logged nothing.
    pub fn new(name: &str) -> (r: Self)
        ensures
            r@ == (LoggerView { name: name@, lines: Seq::empty() }),
    {
        let r = Logger { name: name.to_owned(), lines: Vec::new() };
        assert(views(r.lines@) =~= Seq::<Seq<char>>::empty());
        r
    }

    /// Formats and keeps one line.
    fn log(&mut self, level: &str, message: &str)
        ensures
            final(self)@ == spec_logged(old(self)@, level@, message@),
    {
        let mut line = level.to_owned();
        line.append(" (");
        line.append(self.name.as_str());
        line.append(") \u{203a} ");
        line.append(message);
        let ghost before = views(self.lines@);
        self.lines.push(line);
        assert(views(self.lines@) =~= before.push(line@));
    }

    /// Logs an information.
    pub fn info(&mut self, message: &str)
        ensures
            final(self)@ == spec_logged(old(self)@, info_level(), message@),
    {
        self.log("\x1b[32mINFO\x1b[0m", message);
    }

    /// Logs a warning.
    pub fn warn(&mut self, message: &str)
        ensures
            final(self)@ == spec_logged(old(self)@, warn_level(), message@),
    {
        self.log("\x1b[33mWARN\x1b[0m", message);
    }

    /// Logs an error.
    pub fn error(&mut self, message: &str)
        ensures
            final(self)@ == spec_logged(old(self)@, error_level(), message@),
    {
        self.log("\x1b[31mERROR\x1b[0m", message);
    }

    /// The value of a success; for a failure none, and an error line that
    /// holds `m`, a colon and the failure's reason.
    pub fn extract<T>(&mut self, v: Result<T, String>, m: &str) -> (r: Option<T>)
        ensures
            match v {
                Ok(a) => r == Some(a) && final(self)@ == old(self)@,
                Err(e) => r is None && final(self)@ == spec_logged(
                    old(self)@,
                    error_level(),
                    m@ + ": "@ + e@,
                ),
            },
    {
        match v {
            Ok(a) => Some(a),
            Err(e) => {
                let mut message = m.to_owned();
                message.append(": ");
                message.append(e.as_str());
                self.error(message.as_str());
                None
            },
        }
    }

    /// Takes out the lines that were logged, oldest first.
    pub fn take(&mut self) -> (r: Vec<String>)
        ensures
            views(r@) == old(self)@.lines,
            final(self)@ == (LoggerView { lines: Seq::empty(), ..old(self)@ }),
    {
        let r = clone_strings(&self.lines);
        self.lines.clear();
        assert(views(self.lines@) =~= Seq::<Seq<char>>::empty());
        r
    }
}

} // verus!
