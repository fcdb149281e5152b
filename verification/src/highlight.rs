use vstd::prelude::*;
use vstd::string::*;
use crate::error::SetupError;
use crate::lines::{lines_with_endings, split_keeping_endings, texts};

verus! {

/// `syntect::parsing::SyntaxSet`: a set of grammars.
#[verifier::external_type_specification]
#[verifier::external_body]
pub struct ExSyntaxSet(syntect::parsing::SyntaxSet);

/// `syntect::parsing::SyntaxReference`: one grammar of a set.
#[verifier::external_type_specification]
#[verifier::external_body]
pub struct ExSyntaxReference(syntect::parsing::SyntaxReference);

/// `syntect::highlighting::Theme`: the colours of the token categories.
#[verifier::external_type_specification]
#[verifier::external_body]
pub struct ExTheme(syntect::highlighting::Theme);

/// `syntect::easy::HighlightLines`: a highlighter somewhere in a text, with
/// what it has to remember from the lines before.
#[verifier::external_type_specification]
#[verifier::external_body]
pub struct ExHighlightLines<'a>(syntect::easy::HighlightLines<'a>);

/// `syntect::highlighting::Style`: the colours and the font style of one
/// token.
#[verifier::external_type_specification]
#[verifier::external_body]
pub struct ExTokenStyle(syntect::highlighting::Style);

/// The set was built by the highlighter's own loader of grammar
/// definitions, which gives every grammar its start context.
pub uninterp spec fn well_built(grammars: syntect::parsing::SyntaxSet) -> bool;

/// The grammar that a set of grammars holds for a file extension.
pub uninterp spec fn grammar_for(
    grammars: syntect::parsing::SyntaxSet,
    extension: Seq<char>,
) -> Option<syntect::parsing::SyntaxReference>;

/// The theme of that name among the themes that come with the highlighter.
pub uninterp spec fn bundled_theme(name: Seq<char>) -> Option<syntect::highlighting::Theme>;

/// A highlighter at the beginning of a text.
pub uninterp spec fn fresh_highlighter(
    grammar: syntect::parsing::SyntaxReference,
    theme: syntect::highlighting::Theme,
) -> syntect::easy::HighlightLines<'static>;

/// One line put through a highlighter: the tokens that it cuts the line
/// into, each with its style, and the highlighter as it is behind the line;
/// `None` where the grammar fails on the line.
pub uninterp spec fn highlighted_line(
    state: syntect::easy::HighlightLines<'static>,
    grammars: syntect::parsing::SyntaxSet,
    line: Seq<char>,
) -> Option<
    (Seq<(syntect::highlighting::Style, Seq<char>)>, syntect::easy::HighlightLines<'static>),
>;

/// Tokens written for a terminal of 24-bit colour: each token with the
/// colour sequence of its style before it, with the background set too
/// where `with_background` holds.
pub uninterp spec fn escaped(
    tokens: Seq<(syntect::highlighting::Style, Seq<char>)>,
    with_background: bool,
) -> Seq<char>;

/// The style and the characters of each token.
pub open spec fn token_views(tokens: Seq<(syntect::highlighting::Style, &str)>) -> Seq<
    (syntect::highlighting::Style, Seq<char>),
> {
    tokens.map_values(|token: (syntect::highlighting::Style, &str)| (token.0, token.1@))
}

/// `SyntaxSet::load_defaults_newlines`: the grammars that come with the
/// highlighter, for lines that keep their line feed. They were built by
/// the loader. Which grammars they are is not claimed.
pub assume_specification[ syntect::parsing::SyntaxSet::load_defaults_newlines ]() -> (r:
    syntect::parsing::SyntaxSet)
    ensures
        well_built(r),
;

/// `SyntaxSet::find_syntax_by_extension`: the grammar for an extension.
pub assume_specification<'a>[ syntect::parsing::SyntaxSet::find_syntax_by_extension ](
    grammars: &'a syntect::parsing::SyntaxSet,
    extension: &str,
) -> (r: Option<&'a syntect::parsing::SyntaxReference>)
    ensures
        r is Some <==> grammar_for(*grammars, extension@) is Some,
        r matches Some(g) ==> grammar_for(*grammars, extension@) == Some(*g),
;

/// `ThemeSet::load_defaults`, then the theme under `name` in its `themes`.
#[verifier::external_body]
pub(crate) fn load_theme(name: &str) -> (r: Option<syntect::highlighting::Theme>)
    ensures
        r == bundled_theme(name@),
{
    syntect::highlighting::ThemeSet::load_defaults().themes.get(name).cloned()
}

/// The grammar is one of a set that the loader built.
pub open spec fn has_start_context(grammar: syntect::parsing::SyntaxReference) -> bool {
    exists|grammars: syntect::parsing::SyntaxSet, extension: Seq<char>|
        well_built(grammars) && #[trigger] grammar_for(grammars, extension) == Some(grammar)
}

/// Some set that the loader built holds no grammar for the extension.
pub open spec fn a_built_set_lacks(extension: Seq<char>) -> bool {
    exists|grammars: syntect::parsing::SyntaxSet|
        well_built(grammars) && #[trigger] grammar_for(grammars, extension) is None
}

/// `HighlightLines::new`: a highlighter at the beginning of a text. It
/// looks up the grammar's start context, which a grammar of a set that the
/// loader built has.
pub assume_specification<'a>[ syntect::easy::HighlightLines::<'a>::new ](
    syntax: &syntect::parsing::SyntaxReference,
    theme: &'a syntect::highlighting::Theme,
) -> (r: syntect::easy::HighlightLines<'a>)
    requires
        has_start_context(*syntax),
    ensures
        r == fresh_highlighter(*syntax, *theme),
;

/// `HighlightLines::highlight_line`: puts one line, with its line feed,
/// through the highlighter. The grammars must be those that the
/// highlighter's grammar was taken from.
#[verifier::external_body]
pub(crate) fn highlight_line<'b>(
    state: &mut syntect::easy::HighlightLines<'_>,
    grammars: &syntect::parsing::SyntaxSet,
    line: &'b str,
) -> (r: Option<Vec<(syntect::highlighting::Style, &'b str)>>)
    requires
        begun_with(*grammars, *old(state)),
    ensures
        match highlighted_line(*old(state), *grammars, line@) {
            Some((tokens, next)) => r is Some && token_views(r.unwrap()@) == tokens
                && *final(state) == next,
            None => r is None,
        },
{
    state.highlight_line(line, grammars).ok()
}

/// `syntect::util::as_24_bit_terminal_escaped`: writes tokens for a
/// terminal of 24-bit colour.
pub assume_specification[ syntect::util::as_24_bit_terminal_escaped ](
    v: &[(syntect::highlighting::Style, &str)],
    bg: bool,
) -> (r: String)
    ensures
        r@ == escaped(token_views(v@), bg),
;

/// The file extension under which the statement grammar is found.
pub const STATEMENT_EXTENSION: &'static str = "sql";

/// The theme that statements are shown in, made for dark backgrounds.
pub const THEME_NAME: &'static str = "base16-ocean.dark";

/// Lines put through a highlighter one after the other: what they give,
/// put together, and the highlighter as it is behind the last of them;
/// `None` where the grammar fails on one of them.
pub open spec fn highlighted_lines(
    start: syntect::easy::HighlightLines<'static>,
    grammars: syntect::parsing::SyntaxSet,
    lines: Seq<Seq<char>>,
) -> Option<(Seq<char>, syntect::easy::HighlightLines<'static>)>
    decreases lines.len(),
{
    if lines.len() == 0 {
        Some((Seq::empty(), start))
    } else {
        match highlighted_lines(start, grammars, lines.drop_last()) {
            Some((text, state)) => match highlighted_line(state, grammars, lines.last()) {
                Some((tokens, next)) => Some((text + escaped(tokens, false), next)),
                None => None,
            },
            None => None,
        }
    }
}

/// Lines put through the highlighter `start` leave it as `state`.
pub open spec fn reaches(
    start: syntect::easy::HighlightLines<'static>,
    grammars: syntect::parsing::SyntaxSet,
    lines: Seq<Seq<char>>,
    state: syntect::easy::HighlightLines<'static>,
) -> bool {
    match highlighted_lines(start, grammars, lines) {
        Some((_, reached)) => reached == state,
        None => false,
    }
}

/// The highlighter was begun with a grammar of `grammars` and has since
/// been given lines with `grammars` only.
pub open spec fn begun_with(
    grammars: syntect::parsing::SyntaxSet,
    state: syntect::easy::HighlightLines<'static>,
) -> bool {
    exists|extension: Seq<char>, theme: syntect::highlighting::Theme, lines: Seq<Seq<char>>|
        grammar_for(grammars, extension) is Some && #[trigger] reaches(
            fresh_highlighter(grammar_for(grammars, extension).unwrap(), theme),
            grammars,
            lines,
            state,
        )
}

/// A statement as it is shown: put through the highlighter line by line
/// where there is a theme; as it is where there is none, where the grammars
/// hold none for the extension, or where the grammar fails on a line.
pub open spec fn annotated(
    grammars: syntect::parsing::SyntaxSet,
    extension: Seq<char>,
    theme: Option<syntect::highlighting::Theme>,
    text: Seq<char>,
) -> Seq<char> {
    match theme {
        Some(t) => match grammar_for(grammars, extension) {
            Some(g) => match highlighted_lines(
                fresh_highlighter(g, t),
                grammars,
                lines_with_endings(text),
            ) {
                Some((colored, _)) => colored,
                None => text,
            },
            None => text,
        },
        None => text,
    }
}

/// Where the grammar fails within the first `k` lines, it fails on all of
/// them.
proof fn failure_stays(
    start: syntect::easy::HighlightLines<'static>,
    grammars: syntect::parsing::SyntaxSet,
    lines: Seq<Seq<char>>,
    k: int,
)
    requires
        0 <= k <= lines.len(),
        highlighted_lines(start, grammars, lines.take(k)) is None,
    ensures
        highlighted_lines(start, grammars, lines) is None,
    decreases lines.len() - k,
{
    if k < lines.len() {
        assert(lines.take(k + 1).drop_last() =~= lines.take(k));
        failure_stays(start, grammars, lines, k + 1);
    } else {
        assert(lines.take(k) =~= lines);
    }
}

/// The grammars and the theme that statements are annotated with. Both are
/// loaded once and not changed afterwards.
pub struct Annotator {
    grammars: syntect::parsing::SyntaxSet,
    extension: String,
    theme: Option<syntect::highlighting::Theme>,
}

impl Annotator {
    /// The grammars that were loaded.
    pub closed spec fn grammars(&self) -> syntect::parsing::SyntaxSet {
        self.grammars
    }

    /// The file extension under which the grammar for statements is found.
    pub closed spec fn extension(&self) -> Seq<char> {
        self.extension@
    }

    /// The theme, where one was found.
    pub closed spec fn theme(&self) -> Option<syntect::highlighting::Theme> {
        self.theme
    }

    /// The grammars were built by the loader and hold one for the
    /// extension.
    #[verifier::type_invariant]
    spec fn holds_its_grammar(&self) -> bool {
        &&& well_built(self.grammars)
        &&& grammar_for(self.grammars, self.extension@) is Some
    }

    /// A statement as this annotator shows it.
    pub open spec fn spec_annotate(&self, text: Seq<char>) -> Seq<char> {
        annotated(self.grammars(), self.extension(), self.theme(), text)
    }

    /// Puts grammars, the extension of the statement grammar and a theme
    /// together. Without a grammar for the extension nothing can be
    /// annotated, and that is an error; without a theme statements are shown
    /// uncoloured. The grammars must have been built by the loader, as
    /// those are that `load` hands in.
    pub fn from_grammars(
        grammars: syntect::parsing::SyntaxSet,
        extension: &str,
        theme: Option<syntect::highlighting::Theme>,
    ) -> (r: Result<Annotator, SetupError>)
        requires
            well_built(grammars),
        ensures
            r is Ok <==> grammar_for(grammars, extension@) is Some,
            r matches Ok(a) ==> a.grammars() == grammars && a.extension() == extension@
                && a.theme() == theme,
            r matches Err(e) ==> e == SetupError::MissingGrammar,
    {
        if grammars.find_syntax_by_extension(extension).is_none() {
            return Err(SetupError::MissingGrammar);
        }
        Ok(Annotator { grammars, extension: extension.to_owned(), theme })
    }

    /// Loads the grammars that come with the highlighter and, of the themes
    /// that come with it, the one of the given name. It fails only where
    /// the grammars that it loaded hold none for the extension.
    pub fn load(extension: &str, theme_name: &str) -> (r: Result<Annotator, SetupError>)
        ensures
            r matches Ok(a) ==> grammar_for(a.grammars(), extension@) is Some && a.extension()
                == extension@ && a.theme() == bundled_theme(theme_name@),
            r matches Err(e) ==> e == SetupError::MissingGrammar,
            r is Err ==> a_built_set_lacks(extension@),
    {
        let grammars = syntect::parsing::SyntaxSet::load_defaults_newlines();
        let ghost loaded = grammars;
        let r = Annotator::from_grammars(grammars, extension, load_theme(theme_name));
        proof {
            if r is Err {
                assert(well_built(loaded) && grammar_for(loaded, extension@) is None);
            }
        }
        r
    }

    /// Loads the grammar for statements and the theme that they are shown
    /// in. It fails only where the grammars that it loaded hold none for
    /// statements.
    pub fn new() -> (r: Result<Annotator, SetupError>)
        ensures
            r matches Ok(a) ==> grammar_for(a.grammars(), STATEMENT_EXTENSION@) is Some
                && a.extension() == STATEMENT_EXTENSION@ && a.theme() == bundled_theme(
                THEME_NAME@,
            ),
            r matches Err(e) ==> e == SetupError::MissingGrammar,
            r is Err ==> a_built_set_lacks(STATEMENT_EXTENSION@),
    {
        Annotator::load(STATEMENT_EXTENSION, THEME_NAME)
    }

    /// Whether statements will be coloured.
    pub fn has_theme(&self) -> (r: bool)
        ensures
            r == self.theme() is Some,
    {
        self.theme.is_some()
    }

    /// Colours the tokens of a statement.
    pub fn annotate(&self, text: &str) -> (r: String)
        ensures
            r@ == self.spec_annotate(text@),
            self.theme() is None ==> r@ == text@,
    {
        proof {
            use_type_invariant(self);
        }
        let theme = match &self.theme {
            Some(t) => t,
            None => {
                return text.to_owned();
            },
        };
        let grammar = match self.grammars.find_syntax_by_extension(self.extension.as_str()) {
            Some(g) => g,
            None => {
                return text.to_owned();
            },
        };
        proof {
            assert(well_built(self.grammars) && grammar_for(self.grammars, self.extension@)
                == Some(*grammar));
        }
        let mut state = syntect::easy::HighlightLines::new(grammar, theme);
        let lines = split_keeping_endings(text);
        let mut out = String::new();
        let mut i: usize = 0;
        let ghost all = lines_with_endings(text@);
        let ghost start = fresh_highlighter(*grammar, *theme);
        proof {
            assert(all.take(0) =~= Seq::<Seq<char>>::empty());
        }
        while i < lines.len()
            invariant
                i <= lines.len(),
                texts(lines@) == all,
                all == lines_with_endings(text@),
                self.theme() == Some(*theme),
                grammar_for(self.grammars(), self.extension()) == Some(*grammar),
                start == fresh_highlighter(*grammar, *theme),
                highlighted_lines(start, self.grammars(), all.take(i as int)) == Some(
                    (out@, state),
                ),
            decreases lines.len() - i,
        {
            proof {
                assert(texts(lines@)[i as int] == lines@[i as int]@);
                assert(all.take(i + 1).drop_last() =~= all.take(i as int));
                assert(all.take(i + 1).last() == lines@[i as int]@);
                assert(reaches(
                    fresh_highlighter(
                        grammar_for(self.grammars, self.extension@).unwrap(),
                        *theme,
                    ),
                    self.grammars,
                    all.take(i as int),
                    state,
                ));
            }
            match highlight_line(&mut state, &self.grammars, lines[i].as_str()) {
                Some(tokens) => {
                    let colored = syntect::util::as_24_bit_terminal_escaped(
                        tokens.as_slice(),
                        false,
                    );
                    out.append(colored.as_str());
                },
                None => {
                    proof {
                        failure_stays(start, self.grammars, all, i + 1);
                    }
                    return text.to_owned();
                },
            }
            i = i + 1;
        }
        proof {
            assert(all.take(i as int) =~= all);
        }
        out
    }
}

} // verus!
