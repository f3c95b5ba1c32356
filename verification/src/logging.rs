//! The state of the log sink and what it lets through.
//!
//! The handler decides whether a message is shown and where it goes. The
//! program around the library paints and writes the lines, and keeps the
//! handler behind a lock where several tasks share it.

use crate::package::Verbosity;
use crate::prompt::PromptDefault;
use crate::text::{lemma_strs_take, strs};
use vstd::prelude::*;
use vstd::string::*;

verus! {

/// Where the lines of the log go.
#[derive(Clone, Copy, Debug, PartialEq, Eq, Structural)]
pub enum OutputType {
    Stdout,
    Stderr,
    /// Above a group of progress bars.
    MultiProgress,
    /// Above a progress bar.
    Progress,
}

/// A line for the log sink.
#[derive(Debug)]
pub struct LogLine {
    /// The level of the message, or nothing for plain text.
    pub level: Option<Verbosity>,
    /// Where the line goes.
    pub output: OutputType,
    pub message: String,
}

/// A `LogLine` with its text as a sequence of characters.
pub struct LogLineView {
    pub level: Option<Verbosity>,
    pub output: OutputType,
    pub message: Seq<char>,
}

impl View for LogLine {
    type V = LogLineView;

    open spec fn view(&self) -> LogLineView {
        LogLineView { level: self.level, output: self.output, message: self.message@ }
    }
}

/// A question for the user, ready for the prompt.
#[derive(Debug)]
pub struct Prompt {
    pub question: String,
    /// The answer taken when the user just presses return, if there is one.
    pub default: Option<bool>,
}

/// The log handler: the level up to which messages are shown, where they
/// go, and whether they are garbled for fun.
#[derive(Debug)]
pub struct LogHandler {
    level: Verbosity,
    output_type: OutputType,
    uwu_enabled: bool,
}

/// The state of a `LogHandler`.
pub struct LogHandlerView {
    pub level: Verbosity,
    pub output_type: OutputType,
    pub uwu_enabled: bool,
}

impl View for LogHandler {
    type V = LogHandlerView;

    closed spec fn view(&self) -> LogHandlerView {
        LogHandlerView {
            level: self.level,
            output_type: self.output_type,
            uwu_enabled: self.uwu_enabled,
        }
    }
}

/// The mark that stands before a message of a level.
pub open spec fn spec_symbol(level: Verbosity) -> Seq<char> {
    match level {
        Verbosity::Error => "X"@,
        Verbosity::Warning => "!"@,
        Verbosity::Info => "\u{2756}"@,
        Verbosity::Debug => "\u{2318}"@,
        Verbosity::Trace => "\u{1F5F2}"@,
    }
}

/// The mark that stands before a message of a level.
pub fn symbol(level: Verbosity) -> (mark: String)
    ensures
        mark@ == spec_symbol(level),
{
    match level {
        Verbosity::Error => String::from_str("X"),
        Verbosity::Warning => String::from_str("!"),
        Verbosity::Info => String::from_str("\u{2756}"),
        Verbosity::Debug => String::from_str("\u{2318}"),
        Verbosity::Trace => String::from_str("\u{1F5F2}"),
    }
}

/// The entries of a list in one text, each behind the separator.
pub open spec fn spec_list_text(list: Seq<Seq<char>>, separator: Seq<char>) -> Seq<char>
    decreases list.len(),
{
    if list.len() == 0 {
        Seq::empty()
    } else {
        spec_list_text(list.drop_last(), separator) + separator + list.last()
    }
}

/// The answer that a prompt takes when the user just presses return.
pub open spec fn spec_default_answer(default: PromptDefault) -> Option<bool> {
    match default {
        PromptDefault::Yes => Some(true),
        PromptDefault::No => Some(false),
        PromptDefault::Unset => None,
    }
}

impl LogHandlerView {
    /// The line for a message of `level`, if the handler shows that level.
    pub open spec fn line(self, level: Verbosity, message: Seq<char>) -> Option<LogLineView> {
        if level.spec_rank() <= self.level.spec_rank() {
            Some(LogLineView { level: Some(level), output: self.output_type, message })
        } else {
            None
        }
    }

    /// The line for a plain text.
    pub open spec fn plain(self, message: Seq<char>) -> LogLineView {
        LogLineView { level: None, output: self.output_type, message }
    }
}

impl Default for LogHandler {
    /// A handler that shows information, warnings and errors on the
    /// standard error stream.
    fn default() -> (handler: LogHandler)
        ensures
            handler@ == (LogHandlerView {
                level: Verbosity::Info,
                output_type: OutputType::Stderr,
                uwu_enabled: false,
            }),
    {
        LogHandler { level: Verbosity::Info, output_type: OutputType::Stderr, uwu_enabled: false }
    }
}

impl LogHandler {
    fn log(&self, level: Verbosity, msg: String) -> (line: Option<LogLine>)
        ensures
            match line {
                Some(l) => self@.line(level, msg@) == Some(l@),
                None => self@.line(level, msg@) is None,
            },
    {
        if self.is_loggable(level) {
            Some(LogLine { level: Some(level), output: self.output_type, message: msg })
        } else {
            None
        }
    }

    /// The line for an error, if errors are shown.
    pub fn log_error(&self, msg: String) -> (line: Option<LogLine>)
        ensures
            match line {
                Some(l) => self@.line(Verbosity::Error, msg@) == Some(l@),
                None => self@.line(Verbosity::Error, msg@) is None,
            },
    {
        self.log(Verbosity::Error, msg)
    }

    /// The line for a warning, if warnings are shown.
    pub fn log_warning(&self, msg: String) -> (line: Option<LogLine>)
        ensures
            match line {
                Some(l) => self@.line(Verbosity::Warning, msg@) == Some(l@),
                None => self@.line(Verbosity::Warning, msg@) is None,
            },
    {
        self.log(Verbosity::Warning, msg)
    }

    /// The line for an information, if information is shown.
    pub fn log_info(&self, msg: String) -> (line: Option<LogLine>)
        ensures
            match line {
                Some(l) => self@.line(Verbosity::Info, msg@) == Some(l@),
                None => self@.line(Verbosity::Info, msg@) is None,
            },
    {
        self.log(Verbosity::Info, msg)
    }

    /// The line for a debug message, if those are shown.
    pub fn log_debug(&self, msg: String) -> (line: Option<LogLine>)
        ensures
            match line {
                Some(l) => self@.line(Verbosity::Debug, msg@) == Some(l@),
                None => self@.line(Verbosity::Debug, msg@) is None,
            },
    {
        self.log(Verbosity::Debug, msg)
    }

    /// The line for a trace message, if those are shown.
    pub fn log_trace(&self, msg: String) -> (line: Option<LogLine>)
        ensures
            match line {
                Some(l) => self@.line(Verbosity::Trace, msg@) == Some(l@),
                None => self@.line(Verbosity::Trace, msg@) is None,
            },
    {
        self.log(Verbosity::Trace, msg)
    }

    /// The prompt for a question with a default answer.
    pub fn prompt(&self, question: String, p_default: PromptDefault) -> (prompt: Prompt)
        ensures
            prompt.question@ == question@,
            prompt.default == spec_default_answer(p_default),
    {
        let default = match p_default {
            PromptDefault::Yes => Some(true),
            PromptDefault::No => Some(false),
            PromptDefault::Unset => None,
        };
        Prompt { question, default }
    }

    /// The line that shows a list: its entries, each behind the separator.
    pub fn print_list(&self, list: &Vec<String>, separator: &str) -> (line: LogLine)
        ensures
            line@ == self@.plain(spec_list_text(strs(list@), separator@)),
    {
        let mut text = String::new();
        let mut i: usize = 0;
        assert(text@ =~= spec_list_text(strs(list@).take(0), separator@));
        while i < list.len()
            invariant
                i <= list.len(),
                text@ == spec_list_text(strs(list@).take(i as int), separator@),
            decreases list.len() - i,
        {
            proof {
                lemma_strs_take(list@, i as int);
                assert(strs(list@).take(i + 1).drop_last() =~= strs(list@).take(i as int));
            }
            text.append(separator);
            text.append(list[i].as_str());
            i += 1;
        }
        assert(strs(list@).take(list.len() as int) =~= strs(list@));
        LogLine { level: None, output: self.output_type, message: text }
    }

    /// The line that ends a paragraph.
    pub fn print_newline(&self) -> (line: LogLine)
        ensures
            line@ == self@.plain("\n"@),
    {
        LogLine { level: None, output: self.output_type, message: String::from_str("\n") }
    }

    /// Sets the level up to which messages are shown.
    pub fn set_verbosity(&mut self, level: Verbosity)
        ensures
            final(self)@ == (LogHandlerView { level, ..old(self)@ }),
    {
        self.level = level;
    }

    /// Sends the lines to the standard output again.
    pub fn reset_output_type(&mut self)
        ensures
            final(self)@ == (LogHandlerView { output_type: OutputType::Stdout, ..old(self)@ }),
    {
        self.set_output_type(OutputType::Stdout);
    }

    /// Registers a new progress spinner. Under a group of progress bars the
    /// spinner joins the group, and the result is `true`; otherwise the
    /// lines go above the spinner from now on.
    pub fn new_progress_spinner(&mut self) -> (grouped: bool)
        ensures
            grouped == (old(self)@.output_type == OutputType::MultiProgress),
            final(self)@ == (LogHandlerView {
                output_type: if grouped {
                    OutputType::MultiProgress
                } else {
                    OutputType::Progress
                },
                ..old(self)@
            }),
    {
        match self.output_type {
            OutputType::MultiProgress => true,
            _ => {
                self.set_progress_bar();
                false
            },
        }
    }

    /// Registers a new group of progress bars: the lines go above it.
    pub fn new_multi_progress(&mut self)
        ensures
            final(self)@ == (LogHandlerView {
                output_type: OutputType::MultiProgress,
                ..old(self)@
            }),
    {
        self.set_output_type(OutputType::MultiProgress);
    }

    fn set_progress_bar(&mut self)
        ensures
            final(self)@ == (LogHandlerView { output_type: OutputType::Progress, ..old(self)@ }),
    {
        self.set_output_type(OutputType::Progress);
    }

    /// Sets where the lines go.
    pub fn set_output_type(&mut self, output: OutputType)
        ensures
            final(self)@ == (LogHandlerView { output_type: output, ..old(self)@ }),
    {
        self.output_type = output;
    }

    /// Switches the garbling of messages on or off.
    pub fn set_uwu_enabled(&mut self, enabled: bool)
        ensures
            final(self)@ == (LogHandlerView { uwu_enabled: enabled, ..old(self)@ }),
    {
        self.uwu_enabled = enabled;
    }

    /// Whether messages are garbled.
    pub fn uwu_enabled(&self) -> (enabled: bool)
        ensures
            enabled == self@.uwu_enabled,
    {
        self.uwu_enabled
    }

    /// Where the lines go.
    pub fn output_type(&self) -> (output: OutputType)
        ensures
            output == self@.output_type,
    {
        self.output_type
    }

    /// Whether a message of `level` is shown.
    pub fn is_loggable(&self, level: Verbosity) -> (shown: bool)
        ensures
            shown == (level.spec_rank() <= self@.level.spec_rank()),
    {
        self.level.shows(level)
    }
}

} // verus!
