use vstd::prelude::*;
use crate::error::SetupError;
use crate::pattern::{captures, captures_of, compiled, group_texts, match_texts, prepare};
use crate::record::{LogRecord, RecordView};
use crate::severity::Severity;
use crate::statement::{group_string, group_text};

verus! {

/// The block that a free-text line begins with: a timestamp with an
/// optional zone, a level in capitals, the process id in square brackets;
/// then the message.
pub const LEADING_BLOCK: &'static str =
    "^(\\d{4}-\\d{2}-\\d{2} \\d{2}:\\d{2}:\\d{2}(?:\\.\\d+)?(?: \\S+)??) ([A-Z]+) \\[(\\d+)\\]:?\\s*(.*)";

/// One of the six levels with a colon behind it.
pub const LEVEL_TOKEN: &'static str = "\\b(ERROR|WARNING|LOG|INFO|FATAL|PANIC):";

/// The level of a free-text line: the one in the leading block where that
/// is one of the six, else the one that a level token in the message names,
/// else what the leading block holds.
pub open spec fn free_text_level(
    leading: Seq<Option<Seq<char>>>,
    token: Option<Seq<Option<Seq<char>>>>,
) -> Seq<char> {
    if Severity::of_name(group_text(leading, 2)) != Severity::Unknown {
        group_text(leading, 2)
    } else {
        match token {
            Some(t) => group_text(t, 1),
            None => group_text(leading, 2),
        }
    }
}

/// The record of a free-text line whose leading block matched. A free-text
/// line names no user and no database.
pub open spec fn free_text_fields(
    leading: Seq<Option<Seq<char>>>,
    token: Option<Seq<Option<Seq<char>>>>,
) -> RecordView {
    RecordView {
        timestamp: group_text(leading, 1),
        level: free_text_level(leading, token),
        severity: Severity::of_name(free_text_level(leading, token)),
        process_id: group_text(leading, 3),
        user: None,
        database: None,
        message: group_text(leading, 4),
    }
}

/// Builds the record from the groups of the leading block and, where the
/// message was searched for a level token, the groups of that match.
pub fn record_from_groups(leading: &Vec<Option<String>>, token: Option<Vec<Option<String>>>) -> (r:
    LogRecord)
    ensures
        r@ == free_text_fields(group_texts(leading@), match_texts(token)),
        r.wf(),
{
    let written = group_string(leading, 2);
    let known = match Severity::from_name(written.as_str()) {
        Severity::Unknown => false,
        _ => true,
    };
    let level = if known {
        written
    } else {
        match &token {
            Some(t) => group_string(t, 1),
            None => written,
        }
    };
    let severity = Severity::from_name(level.as_str());
    LogRecord {
        timestamp: group_string(leading, 1),
        level,
        severity,
        process_id: group_string(leading, 3),
        user: None,
        database: None,
        message: group_string(leading, 4),
    }
}

/// The record of a free-text line; `None` where the line does not begin
/// with the leading block.
pub open spec fn free_text_record(line: Seq<char>) -> Option<RecordView> {
    match captures_of(LEADING_BLOCK@, line) {
        Some(leading) => Some(
            free_text_fields(leading, captures_of(LEVEL_TOKEN@, group_text(leading, 4))),
        ),
        None => None,
    }
}

/// The two compiled patterns that take a free-text line apart.
pub struct FreeTextReader {
    leading: regex::Regex,
    token: regex::Regex,
}

impl FreeTextReader {
    /// Each expression was compiled from its pattern.
    #[verifier::type_invariant]
    spec fn compiled_from_patterns(&self) -> bool {
        &&& compiled(LEADING_BLOCK@) == Some(self.leading)
        &&& compiled(LEVEL_TOKEN@) == Some(self.token)
    }

    /// Compiles the two patterns. A failure names the first that did not
    /// compile.
    pub fn new() -> (r: Result<FreeTextReader, SetupError>)
        ensures
            r is Ok <==> compiled(LEADING_BLOCK@) is Some && compiled(LEVEL_TOKEN@) is Some,
            r matches Err(e) ==> e.bad_pattern() == Some(
                if compiled(LEADING_BLOCK@) is None {
                    LEADING_BLOCK@
                } else {
                    LEVEL_TOKEN@
                },
            ),
    {
        let leading = match prepare(LEADING_BLOCK) {
            Ok(re) => re,
            Err(e) => {
                return Err(e);
            },
        };
        let token = match prepare(LEVEL_TOKEN) {
            Ok(re) => re,
            Err(e) => {
                return Err(e);
            },
        };
        Ok(FreeTextReader { leading, token })
    }

    /// Takes a free-text line apart.
    pub fn read(&self, line: &str) -> (r: Option<LogRecord>)
        ensures
            r is Some <==> free_text_record(line@) is Some,
            r matches Some(record) ==> Some(record@) == free_text_record(line@) && record.wf(),
    {
        proof {
            use_type_invariant(self);
        }
        match captures(&self.leading, line) {
            Some(leading) => {
                let message = group_string(&leading, 4);
                let token = captures(&self.token, message.as_str());
                Some(record_from_groups(&leading, token))
            },
            None => None,
        }
    }
}

} // verus!
