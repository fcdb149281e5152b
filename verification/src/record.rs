use vstd::prelude::*;
use crate::severity::Severity;

verus! {

/// One log record, taken apart.
#[derive(Clone, Debug, PartialEq, Eq)]
pub struct LogRecord {
    pub timestamp: String,
    /// The level as the server wrote it.
    pub level: String,
    /// The severity that `level` stands for.
    pub severity: Severity,
    pub process_id: String,
    pub user: Option<String>,
    pub database: Option<String>,
    pub message: String,
}

/// A record in contracts.
pub struct RecordView {
    pub timestamp: Seq<char>,
    pub level: Seq<char>,
    pub severity: Severity,
    pub process_id: Seq<char>,
    pub user: Option<Seq<char>>,
    pub database: Option<Seq<char>>,
    pub message: Seq<char>,
}

/// The characters of an optional text.
pub open spec fn optional_text(s: Option<String>) -> Option<Seq<char>> {
    match s {
        Some(t) => Some(t@),
        None => None,
    }
}

impl View for LogRecord {
    type V = RecordView;

    open spec fn view(&self) -> RecordView {
        RecordView {
            timestamp: self.timestamp@,
            level: self.level@,
            severity: self.severity,
            process_id: self.process_id@,
            user: optional_text(self.user),
            database: optional_text(self.database),
            message: self.message@,
        }
    }
}

impl RecordView {
    /// The severity is the one that the level names, and a user or database
    /// that is there is not empty.
    pub open spec fn wf(self) -> bool {
        &&& self.severity == Severity::of_name(self.level)
        &&& self.user matches Some(u) ==> u.len() > 0
        &&& self.database matches Some(d) ==> d.len() > 0
    }
}

impl LogRecord {
    /// The record is well formed.
    pub open spec fn wf(&self) -> bool {
        self@.wf()
    }
}

/// An embedded statement and how long it ran, as found in a message.
#[derive(Clone, Debug, PartialEq, Eq)]
pub struct StatementFragment {
    pub duration: Option<String>,
    pub statement: Option<String>,
}

/// A fragment in contracts.
pub struct FragmentView {
    pub duration: Option<Seq<char>>,
    pub statement: Option<Seq<char>>,
}

impl View for StatementFragment {
    type V = FragmentView;

    open spec fn view(&self) -> FragmentView {
        FragmentView {
            duration: optional_text(self.duration),
            statement: optional_text(self.statement),
        }
    }
}

impl FragmentView {
    /// A duration comes only with a statement, and neither is empty.
    pub open spec fn wf(self) -> bool {
        &&& self.duration is Some ==> self.statement is Some
        &&& self.duration matches Some(d) ==> d.len() > 0
        &&& self.statement matches Some(s) ==> s.len() > 0
    }
}

impl StatementFragment {
    /// The fragment is well formed.
    pub open spec fn wf(&self) -> bool {
        self@.wf()
    }
}

/// `text` where it has characters, nothing where it has none.
pub open spec fn present(text: Seq<char>) -> Option<Seq<char>> {
    if text.len() > 0 {
        Some(text)
    } else {
        None
    }
}

/// Drops an empty text.
pub fn non_empty(text: String) -> (r: Option<String>)
    ensures
        optional_text(r) == present(text@),
{
    if text.as_str().is_empty() {
        None
    } else {
        Some(text)
    }
}

} // verus!
