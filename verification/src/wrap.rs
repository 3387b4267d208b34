use vstd::prelude::*;
use crate::text::string_views;

verus! {

/// The lines into which the text-wrapping library breaks `text` for lines
/// of `width` columns, the first line starting with `initial_indent` and
/// the others with `subsequent_indent`.
pub uninterp spec fn wrapped(
    text: Seq<char>,
    width: usize,
    initial_indent: Seq<char>,
    subsequent_indent: Seq<char>,
) -> Seq<Seq<char>>;

/// `textwrap::wrap` of `text` with `Options::new(width)` and the two
/// indents; the result is `wrapped` of the four arguments.
#[verifier::external_body]
pub(crate) fn wrap_text(text: &str, width: usize, initial_indent: &str, subsequent_indent: &str) -> (r: Vec<
    String,
>)
    ensures
        string_views(r@) == wrapped(text@, width, initial_indent@, subsequent_indent@),
{
    let options = textwrap::Options::new(width).initial_indent(initial_indent).subsequent_indent(
        subsequent_indent,
    );
    textwrap::wrap(text, options).into_iter().map(|line| line.into_owned()).collect()
}

} // verus!
