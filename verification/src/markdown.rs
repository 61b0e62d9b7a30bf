use comrak::arena_tree::NodeEdge;
use comrak::nodes::NodeValue;
use vstd::prelude::*;
use vstd::string::StringExecFns;
use vstd::utf8::{decode_utf8, valid_utf8};

verus! {

/// One step of a walk through a parsed document, in document order. Every
/// node is entered and left; only headings and what bears text matter to
/// the scan for a title.
#[derive(Debug, PartialEq, Eq)]
pub enum Token {
    /// A heading of the given level is entered.
    HeadingStart(u32),
    /// A heading is left.
    HeadingEnd,
    /// A text node is entered. It holds bytes that are meant to be UTF-8.
    Text(Vec<u8>),
    /// A code span is entered. It holds its content, as bytes that are
    /// meant to be UTF-8.
    Code(Vec<u8>),
    /// Any other node is entered, or any node but a heading is left.
    Other,
}

/// What a `Token` is to a contract.
pub enum TokenView {
    HeadingStart(u32),
    HeadingEnd,
    Text(Seq<u8>),
    Code(Seq<u8>),
    Other,
}

impl DeepView for Token {
    type V = TokenView;

    open spec fn deep_view(&self) -> TokenView {
        match *self {
            Token::HeadingStart(level) => TokenView::HeadingStart(level),
            Token::HeadingEnd => TokenView::HeadingEnd,
            Token::Text(bytes) => TokenView::Text(bytes@),
            Token::Code(bytes) => TokenView::Code(bytes@),
            Token::Other => TokenView::Other,
        }
    }
}

/// Why a note could not be rendered.
#[derive(Debug, Clone, Copy, PartialEq, Eq, Structural)]
pub enum RenderError {
    /// A piece of the title is not valid UTF-8.
    InvalidText,
}

/// The walk through the document that `text` parses to.
pub uninterp spec fn document_tokens(text: Seq<char>) -> Seq<TokenView>;

/// The HTML that `text` renders to.
pub uninterp spec fn document_html(text: Seq<char>) -> Seq<char>;

/// Calls `comrak::parse_document` with the default options and walks the
/// tree with `Node::traverse`. Trusted: the tokens are that walk, each edge
/// turned into the token that stands for it.
#[verifier::external_body]
pub(crate) fn parse_tokens(text: &str) -> (tokens: Vec<Token>)
    ensures
        tokens.deep_view() == document_tokens(text@),
{
    let arena = comrak::Arena::new();
    let root = comrak::parse_document(&arena, text, &comrak::ComrakOptions::default());
    root.traverse().map(|edge| match edge {
        NodeEdge::Start(node) => match &node.data.borrow().value {
            NodeValue::Heading(heading) => Token::HeadingStart(heading.level),
            NodeValue::Text(literal) => Token::Text(literal.clone()),
            NodeValue::Code(code) => Token::Code(code.literal.clone()),
            _ => Token::Other,
        },
        NodeEdge::End(node) => match &node.data.borrow().value {
            NodeValue::Heading(_) => Token::HeadingEnd,
            _ => Token::Other,
        },
    }).collect()
}

/// Calls `comrak::markdown_to_html` with the default options. Trusted: the
/// result is the HTML of the document.
#[verifier::external_body]
pub(crate) fn to_html(text: &str) -> (html: String)
    ensures
        html@ == document_html(text@),
{
    comrak::markdown_to_html(text, &comrak::ComrakOptions::default())
}

/// The text pieces among `tokens` that come before the first heading end:
/// what the text nodes and the code spans hold, in document order.
pub open spec fn texts_to_heading_end(tokens: Seq<TokenView>) -> Seq<Seq<u8>>
    decreases tokens.len(),
{
    if tokens.len() == 0 {
        Seq::empty()
    } else {
        match tokens[0] {
            TokenView::HeadingEnd => Seq::empty(),
            TokenView::Text(bytes) => seq![bytes] + texts_to_heading_end(tokens.drop_first()),
            TokenView::Code(bytes) => seq![bytes] + texts_to_heading_end(tokens.drop_first()),
            _ => texts_to_heading_end(tokens.drop_first()),
        }
    }
}

/// The text pieces of the first heading among `tokens`, whatever its level,
/// at any depth below it and in document order; none where there is no
/// heading.
pub open spec fn heading_texts(tokens: Seq<TokenView>) -> Seq<Seq<u8>>
    decreases tokens.len(),
{
    if tokens.len() == 0 {
        Seq::empty()
    } else if tokens[0] is HeadingStart {
        texts_to_heading_end(tokens.drop_first())
    } else {
        heading_texts(tokens.drop_first())
    }
}

/// Whether every piece is valid UTF-8.
pub open spec fn all_valid_utf8(pieces: Seq<Seq<u8>>) -> bool {
    forall|i: int| 0 <= i < pieces.len() ==> valid_utf8(#[trigger] pieces[i])
}

/// The pieces decoded and joined, with nothing between them.
pub open spec fn decoded(pieces: Seq<Seq<u8>>) -> Seq<char>
    decreases pieces.len(),
{
    if pieces.len() == 0 {
        Seq::empty()
    } else {
        decoded(pieces.drop_last()) + decode_utf8(pieces.last())
    }
}

/// The title of a document: the text of its first heading, or no title at
/// all where a piece of that text is not UTF-8.
pub open spec fn title_of(tokens: Seq<TokenView>) -> Option<Seq<char>> {
    let pieces = heading_texts(tokens);
    if all_valid_utf8(pieces) {
        Some(decoded(pieces))
    } else {
        None
    }
}

/// Scans a walk through a document for its title.
pub fn heading_title(tokens: &Vec<Token>) -> (title: Result<String, RenderError>)
    ensures
        match title_of(tokens.deep_view()) {
            Some(text) => title matches Ok(s) && s@ == text,
            None => title == Err::<String, RenderError>(RenderError::InvalidText),
        },
{
    let ghost all = tokens.deep_view();
    let ghost mut seen: Seq<Seq<u8>> = Seq::empty();
    let mut title = String::new();
    let mut in_heading = false;
    let mut found = false;
    let mut i: usize = 0;
    proof {
        assert(all.skip(0) == all);
    }
    while i < tokens.len() && !found
        invariant
            i <= tokens.len(),
            all == tokens.deep_view(),
            all_valid_utf8(seen),
            title@ == decoded(seen),
            !(in_heading && found),
            !in_heading && !found ==> seen.len() == 0 && heading_texts(all) == heading_texts(
                all.skip(i as int),
            ),
            in_heading ==> heading_texts(all) == seen + texts_to_heading_end(all.skip(i as int)),
            found ==> heading_texts(all) == seen,
        decreases tokens.len() - i,
    {
        proof {
            assert(all.skip(i as int).drop_first() == all.skip(i + 1));
        }
        match &tokens[i] {
            Token::HeadingStart(_) => {
                if !in_heading {
                    in_heading = true;
                }
            },
            Token::HeadingEnd => {
                if in_heading {
                    in_heading = false;
                    found = true;
                }
            },
            Token::Text(bytes) | Token::Code(bytes) => {
                if in_heading {
                    match core::str::from_utf8(bytes.as_slice()) {
                        Ok(piece) => {
                            title.append(piece);
                            proof {
                                vstd::utf8::encode_utf8_decode_utf8(piece@);
                                assert(seen.push(bytes@).drop_last() == seen);
                                seen = seen.push(bytes@);
                            }
                        },
                        Err(_) => {
                            proof {
                                assert(heading_texts(all)[seen.len() as int] == bytes@);
                            }
                            return Err(RenderError::InvalidText);
                        },
                    }
                }
            },
            Token::Other => {},
        }
        i += 1;
    }
    Ok(title)
}

/// Renders a Markdown document: its HTML, whole, and its title, which is
/// the text of its first heading and empty where it has none.
pub fn render_markdown(text: &str) -> (rendered: Result<(String, String), RenderError>)
    ensures
        match title_of(document_tokens(text@)) {
            Some(title) => rendered matches Ok(pair) && pair.0@ == document_html(text@)
                && pair.1@ == title,
            None => rendered == Err::<(String, String), RenderError>(RenderError::InvalidText),
        },
{
    let tokens = parse_tokens(text);
    match heading_title(&tokens) {
        Ok(title) => {
            let body = to_html(text);
            Ok((body, title))
        },
        Err(e) => Err(e),
    }
}

/// A document without a heading has the empty title.
pub proof fn lemma_no_heading_no_title(tokens: Seq<TokenView>)
    requires
        forall|i: int| 0 <= i < tokens.len() ==> !(#[trigger] tokens[i] is HeadingStart),
    ensures
        heading_texts(tokens) == Seq::<Seq<u8>>::empty(),
        title_of(tokens) == Some(Seq::<char>::empty()),
    decreases tokens.len(),
{
    if tokens.len() > 0 {
        lemma_no_heading_no_title(tokens.drop_first());
    }
}

/// What follows a heading end does not change the text before it.
proof fn lemma_texts_stop_at_heading_end(tokens: Seq<TokenView>, rest: Seq<TokenView>, end: int)
    requires
        0 <= end < tokens.len(),
        tokens[end] is HeadingEnd,
    ensures
        texts_to_heading_end(tokens + rest) == texts_to_heading_end(tokens),
    decreases tokens.len(),
{
    if !(tokens[0] is HeadingEnd) {
        assert((tokens + rest).drop_first() == tokens.drop_first() + rest);
        lemma_texts_stop_at_heading_end(tokens.drop_first(), rest, end - 1);
    }
}

/// The first heading wins: once a heading has been entered and left,
/// nothing that follows changes the title, whatever its level.
pub proof fn lemma_first_heading_wins(
    tokens: Seq<TokenView>,
    rest: Seq<TokenView>,
    start: int,
    end: int,
)
    requires
        0 <= start < end < tokens.len(),
        tokens[start] is HeadingStart,
        tokens[end] is HeadingEnd,
    ensures
        heading_texts(tokens + rest) == heading_texts(tokens),
        title_of(tokens + rest) == title_of(tokens),
    decreases tokens.len(),
{
    assert((tokens + rest).drop_first() == tokens.drop_first() + rest);
    if tokens[0] is HeadingStart {
        lemma_texts_stop_at_heading_end(tokens.drop_first(), rest, end - 1);
    } else {
        lemma_first_heading_wins(tokens.drop_first(), rest, start - 1, end - 1);
    }
}

} // verus!
