use vstd::prelude::*;
use crate::error::SetupError;
use crate::pattern::{captures, captures_of, compiled, group_texts, match_texts, prepare};
use crate::record::{FragmentView, StatementFragment, non_empty, present};

verus! {

/// A duration in milliseconds followed by a statement.
pub const TIMED_STATEMENT: &'static str = "duration: ([0-9.]+ ms)\\s+statement: (.*)";

/// A statement alone.
pub const BARE_STATEMENT: &'static str = "statement: (.*)";

/// What group `i` of a match holds; nothing where the group is not there or
/// took no part.
pub open spec fn group_text(groups: Seq<Option<Seq<char>>>, i: int) -> Seq<char> {
    if 0 <= i < groups.len() && groups[i] is Some {
        groups[i].unwrap()
    } else {
        Seq::empty()
    }
}

/// The text of group `i`, empty where the group is not there.
pub fn group_string(groups: &Vec<Option<String>>, i: usize) -> (r: String)
    ensures
        r@ == group_text(group_texts(groups@), i as int),
{
    if i < groups.len() {
        match &groups[i] {
            Some(s) => s.clone(),
            None => String::new(),
        }
    } else {
        String::new()
    }
}

/// The fragment that the two patterns' matches stand for. The timed pattern
/// goes first: where it matched, the other is not looked at. A statement
/// without characters is no statement, and a duration is kept only beside a
/// statement.
pub open spec fn fragment_of(
    timed: Option<Seq<Option<Seq<char>>>>,
    bare: Option<Seq<Option<Seq<char>>>>,
) -> FragmentView {
    let duration = match timed {
        Some(g) => group_text(g, 1),
        None => Seq::empty(),
    };
    let statement = match timed {
        Some(g) => group_text(g, 2),
        None => match bare {
            Some(g) => group_text(g, 1),
            None => Seq::empty(),
        },
    };
    if statement.len() > 0 {
        FragmentView { duration: present(duration), statement: Some(statement) }
    } else {
        FragmentView { duration: None, statement: None }
    }
}

/// Builds the fragment from what the two patterns matched.
pub fn fragment_from_matches(
    timed: Option<Vec<Option<String>>>,
    bare: Option<Vec<Option<String>>>,
) -> (r: StatementFragment)
    ensures
        r@ == fragment_of(match_texts(timed), match_texts(bare)),
        r.wf(),
{
    let duration = match &timed {
        Some(g) => group_string(g, 1),
        None => String::new(),
    };
    let statement = match &timed {
        Some(g) => group_string(g, 2),
        None => match &bare {
            Some(g) => group_string(g, 1),
            None => String::new(),
        },
    };
    if statement.as_str().is_empty() {
        StatementFragment { duration: None, statement: None }
    } else {
        StatementFragment { duration: non_empty(duration), statement: Some(statement) }
    }
}

/// The two compiled patterns that find a statement in a message.
pub struct StatementDetector {
    timed: regex::Regex,
    bare: regex::Regex,
}

impl StatementDetector {
    /// Each expression was compiled from its pattern.
    #[verifier::type_invariant]
    spec fn compiled_from_patterns(&self) -> bool {
        &&& compiled(TIMED_STATEMENT@) == Some(self.timed)
        &&& compiled(BARE_STATEMENT@) == Some(self.bare)
    }

    /// Compiles the two patterns. A failure names the first that did not
    /// compile.
    pub fn new() -> (r: Result<StatementDetector, SetupError>)
        ensures
            r is Ok <==> compiled(TIMED_STATEMENT@) is Some && compiled(BARE_STATEMENT@) is Some,
            r matches Err(e) ==> e.bad_pattern() == Some(
                if compiled(TIMED_STATEMENT@) is None {
                    TIMED_STATEMENT@
                } else {
                    BARE_STATEMENT@
                },
            ),
    {
        let timed = match prepare(TIMED_STATEMENT) {
            Ok(re) => re,
            Err(e) => {
                return Err(e);
            },
        };
        let bare = match prepare(BARE_STATEMENT) {
            Ok(re) => re,
            Err(e) => {
                return Err(e);
            },
        };
        Ok(StatementDetector { timed, bare })
    }

    /// The statement fragment of a message.
    pub fn detect(&self, message: &str) -> (r: StatementFragment)
        ensures
            r@ == fragment_of(
                captures_of(TIMED_STATEMENT@, message@),
                captures_of(BARE_STATEMENT@, message@),
            ),
            r.wf(),
    {
        proof {
            use_type_invariant(self);
        }
        let timed = captures(&self.timed, message);
        let bare = if timed.is_none() {
            captures(&self.bare, message)
        } else {
            None
        };
        fragment_from_matches(timed, bare)
    }
}

} // verus!
