use vstd::prelude::*;
use vstd::string::*;

verus! {

/// Why the renderer could not be set up.
#[derive(Clone, Debug, PartialEq, Eq)]
pub enum SetupError {
    /// The pattern held here did not compile.
    BadPattern(String),
    /// No grammar for statements is among the loaded grammars.
    MissingGrammar,
}

impl SetupError {
    /// The pattern that did not compile, if that is what went wrong.
    pub open spec fn bad_pattern(self) -> Option<Seq<char>> {
        match self {
            SetupError::BadPattern(p) => Some(p@),
            SetupError::MissingGrammar => None,
        }
    }

    /// A line for the diagnostic stream.
    pub fn describe(&self) -> (r: String)
        ensures
            r@ == (match *self {
                SetupError::BadPattern(p) => "pattern does not compile: "@ + p@,
                SetupError::MissingGrammar => "no SQL grammar among the loaded grammars"@,
            }),
    {
        match self {
            SetupError::BadPattern(p) => {
                let mut out = "pattern does not compile: ".to_owned();
                out.append(p.as_str());
                out
            },
            SetupError::MissingGrammar => "no SQL grammar among the loaded grammars".to_owned(),
        }
    }
}

} // verus!
