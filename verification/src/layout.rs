use vstd::prelude::*;

verus! {

/// The layout that the pretty-printer gives a statement, with its default
/// options and without parameters to fill in.
pub uninterp spec fn laid_out(statement: Seq<char>) -> Seq<char>;

/// `sqlformat::format` with `QueryParams::None` and the default
/// `FormatOptions`: the statement on several lines, one clause each.
#[verifier::external_body]
pub(crate) fn lay_out(statement: &str) -> (r: String)
    ensures
        r@ == laid_out(statement@),
{
    sqlformat::format(
        statement,
        &sqlformat::QueryParams::None,
        &sqlformat::FormatOptions::default(),
    )
}

/// What is kept of a statement, of its layout `once` and of the layout
/// `twice` of that layout: the layout where laying it out again gives it
/// back, the statement as written otherwise.
pub open spec fn settled(statement: Seq<char>, once: Seq<char>, twice: Seq<char>) -> Seq<char> {
    if twice == once {
        once
    } else {
        statement
    }
}

/// The canonical form of a statement: its layout, where that layout is a
/// fixed point of the pretty-printer; the statement itself where it is not.
pub open spec fn formatted(statement: Seq<char>) -> Seq<char> {
    settled(statement, laid_out(statement), laid_out(laid_out(statement)))
}

/// Chooses between a statement and its layout, given the layout and the
/// layout of the layout.
pub fn settle(statement: &str, once: String, twice: &str) -> (r: String)
    ensures
        r@ == settled(statement@, once@, twice@),
{
    if crate::text::same_text(twice, once.as_str()) {
        once
    } else {
        statement.to_owned()
    }
}

/// Brings a statement into its canonical form.
pub fn format_statement(statement: &str) -> (r: String)
    ensures
        r@ == formatted(statement@),
{
    let once = lay_out(statement);
    let twice = lay_out(once.as_str());
    settle(statement, once, twice.as_str())
}

/// Formatting is a fixed point: a canonical form is its own canonical form.
pub proof fn formatting_is_idempotent(statement: Seq<char>)
    ensures
        formatted(formatted(statement)) == formatted(statement),
{
}

} // verus!
