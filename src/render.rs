use vstd::prelude::*;

verus! {

/// The HTML that the CommonMark renderer produces for Markdown text `markdown`,
/// with tables, footnotes, strikethrough, task lists and heading attributes on.
pub uninterp spec fn markdown_html(markdown: Seq<char>) -> Seq<char>;

/// Relies on pulldown_cmark's `Parser::new_ext` with `Options::all()` and
/// `html::push_html` into an empty string: the HTML depends on the text alone.
#[verifier::external_body]
pub(crate) fn render_markdown(markdown: &str) -> (r: String)
    ensures
        r@ == markdown_html(markdown@),
{
    let parser = pulldown_cmark::Parser::new_ext(markdown, pulldown_cmark::Options::all());
    let mut out = String::new();
    pulldown_cmark::html::push_html(&mut out, parser);
    out
}

} // verus!
