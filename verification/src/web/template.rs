//! Text that is to be rendered as Markdown.

use pulldown_cmark::{html, Parser};
use vstd::prelude::*;
use vstd::std_specs::convert::FromSpecImpl;

verus! {

/// Markdown source, to be shown as HTML.
#[derive(Debug)]
pub struct MarkdownHtml(pub String);

impl From<String> for MarkdownHtml {
    fn from(s: String) -> (markdown: Self) {
        MarkdownHtml(s)
    }
}

impl FromSpecImpl<String> for MarkdownHtml {
    open spec fn obeys_from_spec() -> bool {
        true
    }

    open spec fn from_spec(s: String) -> Self {
        MarkdownHtml(s)
    }
}

/// The HTML that `pulldown_cmark` makes of a Markdown source.
pub uninterp spec fn markdown_html(source: Seq<char>) -> Seq<char>;

/// `pulldown_cmark::html::push_html` on `Parser::new(source)`, into an empty
/// string: the HTML depends on the source alone.
#[verifier::external_body]
fn push_html(source: &str) -> (markup: String)
    ensures
        markup@ == markdown_html(source@),
{
    let mut markup = String::new();
    html::push_html(&mut markup, Parser::new(source));
    markup
}

impl MarkdownHtml {
    /// The source as HTML.
    pub fn render(&self) -> (markup: String)
        ensures
            markup@ == markdown_html(self.0@),
    {
        push_html(self.0.as_str())
    }
}

} // verus!
