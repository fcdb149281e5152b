use vstd::prelude::*;
use crate::style::TextStyle;
use crate::text::same_text;

verus! {

/// How serious the server considered a log record.
#[derive(Clone, Copy, Debug, PartialEq, Eq, Structural)]
pub enum Severity {
    Error,
    Warning,
    Log,
    Info,
    Fatal,
    Panic,
    Unknown,
}

impl Severity {
    /// The severity that a level name stands for; `Unknown` for every name
    /// but the six that the server writes.
    pub open spec fn of_name(name: Seq<char>) -> Severity {
        if name == "ERROR"@ {
            Severity::Error
        } else if name == "WARNING"@ {
            Severity::Warning
        } else if name == "LOG"@ {
            Severity::Log
        } else if name == "INFO"@ {
            Severity::Info
        } else if name == "FATAL"@ {
            Severity::Fatal
        } else if name == "PANIC"@ {
            Severity::Panic
        } else {
            Severity::Unknown
        }
    }

    /// The display attribute of each severity.
    pub open spec fn spec_style(self) -> TextStyle {
        match self {
            Severity::Error => TextStyle::spec_bold(colored::Color::Red),
            Severity::Warning => TextStyle::spec_bold(colored::Color::Yellow),
            Severity::Log => TextStyle::spec_colored(colored::Color::Green),
            Severity::Info => TextStyle::spec_colored(colored::Color::Green),
            Severity::Fatal => TextStyle::spec_alarm(),
            Severity::Panic => TextStyle::spec_alarm(),
            Severity::Unknown => TextStyle::spec_plain(),
        }
    }

    /// Reads a level name.
    pub fn from_name(name: &str) -> (r: Severity)
        ensures
            r == Severity::of_name(name@),
    {
        if same_text(name, "ERROR") {
            Severity::Error
        } else if same_text(name, "WARNING") {
            Severity::Warning
        } else if same_text(name, "LOG") {
            Severity::Log
        } else if same_text(name, "INFO") {
            Severity::Info
        } else if same_text(name, "FATAL") {
            Severity::Fatal
        } else if same_text(name, "PANIC") {
            Severity::Panic
        } else {
            Severity::Unknown
        }
    }

    /// The display attribute that the severity is shown in.
    pub fn style(self) -> (r: TextStyle)
        ensures
            r == self.spec_style(),
    {
        match self {
            Severity::Error => TextStyle::bold(colored::Color::Red),
            Severity::Warning => TextStyle::bold(colored::Color::Yellow),
            Severity::Log => TextStyle::colored(colored::Color::Green),
            Severity::Info => TextStyle::colored(colored::Color::Green),
            Severity::Fatal => TextStyle::alarm(),
            Severity::Panic => TextStyle::alarm(),
            Severity::Unknown => TextStyle::plain(),
        }
    }
}

/// Only an unknown severity is shown without emphasis, and the known ones
/// fall into four looks: errors, warnings, the two routine levels, and the
/// two that end a session or the server.
pub proof fn severity_styles_are_fixed(s: Severity)
    ensures
        s.spec_style().is_plain() <==> s == Severity::Unknown,
        s.spec_style() == Severity::Error.spec_style() <==> s == Severity::Error,
        s.spec_style() == Severity::Warning.spec_style() <==> s == Severity::Warning,
        s.spec_style() == Severity::Log.spec_style() <==> (s == Severity::Log || s
            == Severity::Info),
        s.spec_style() == Severity::Fatal.spec_style() <==> (s == Severity::Fatal || s
            == Severity::Panic),
{
}

} // verus!
