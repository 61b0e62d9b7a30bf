use knot::markdown::{heading_title, render_markdown, RenderError, Token};

fn text(s: &str) -> Token {
    Token::Text(s.as_bytes().to_vec())
}

#[test]
fn title_is_the_first_heading() {
    let (body, title) = render_markdown("# Hello\n\nBody text").unwrap();
    assert_eq!(title, "Hello");
    assert_eq!(body, "<h1>Hello</h1>\n<p>Body text</p>\n");
    assert!(body.contains("<p>Body text</p>"));
}

#[test]
fn no_heading_gives_the_empty_title() {
    let (body, title) = render_markdown("just a paragraph\n\n* and a list").unwrap();
    assert_eq!(title, "");
    assert_eq!(body, "<p>just a paragraph</p>\n<ul>\n<li>and a list</li>\n</ul>\n");
}

#[test]
fn empty_document() {
    let (body, title) = render_markdown("").unwrap();
    assert_eq!(title, "");
    assert_eq!(body, "");
}

#[test]
fn first_heading_wins_whatever_its_level() {
    let (body, title) = render_markdown("## First\n# Second").unwrap();
    assert_eq!(title, "First");
    assert_eq!(body, "<h2>First</h2>\n<h1>Second</h1>\n");
}

#[test]
fn heading_after_a_paragraph_is_still_the_title() {
    let (_, title) = render_markdown("intro\n\n### Late\n\nmore").unwrap();
    assert_eq!(title, "Late");
}

#[test]
fn title_takes_the_text_inside_emphasis_and_links() {
    let (body, title) = render_markdown("# Hello *big* **wide** [world](http://example.com)").unwrap();
    assert_eq!(title, "Hello big wide world");
    assert_eq!(
        body,
        "<h1>Hello <em>big</em> <strong>wide</strong> <a href=\"http://example.com\">world</a></h1>\n"
    );
}

#[test]
fn title_takes_the_text_of_code_spans() {
    let (body, title) = render_markdown("# Use `derive` here\n").unwrap();
    assert_eq!(title, "Use derive here");
    assert_eq!(body, "<h1>Use <code>derive</code> here</h1>\n");
}

#[test]
fn title_leaves_out_what_is_not_text() {
    let (_, title) = render_markdown("# A <b>bold</b> ![pic](p.png) end").unwrap();
    assert_eq!(title, "A bold pic end");
    let (_, broken) = render_markdown("one\ntwo\n===\n").unwrap();
    assert_eq!(broken, "onetwo");
}

#[test]
fn title_has_entities_decoded() {
    let (body, title) = render_markdown("# Fish &amp; chips &lt;3").unwrap();
    assert_eq!(title, "Fish & chips <3");
    assert_eq!(body, "<h1>Fish &amp; chips &lt;3</h1>\n");
}

#[test]
fn setext_heading_is_a_heading() {
    let (_, title) = render_markdown("Title\n=====\n\nbody").unwrap();
    assert_eq!(title, "Title");
}

#[test]
fn heading_inside_a_block_quote_comes_first_in_document_order() {
    let (_, title) = render_markdown("> # Quoted\n\n# Top").unwrap();
    assert_eq!(title, "Quoted");
}

#[test]
fn empty_heading_gives_the_empty_title_and_later_ones_do_not_count() {
    let (_, title) = render_markdown("#\n\n# Second").unwrap();
    assert_eq!(title, "");
}

#[test]
fn title_keeps_text_that_is_not_ascii() {
    let (body, title) = render_markdown("# Grüße, 世界\n").unwrap();
    assert_eq!(title, "Grüße, 世界");
    assert_eq!(body, "<h1>Grüße, 世界</h1>\n");
}

#[test]
fn body_renders_the_usual_blocks() {
    let (body, _) = render_markdown("> quote\n\n```\ncode <b>\n```\n\n1. one\n2. two\n\n![alt](i.png)\n").unwrap();
    assert_eq!(
        body,
        "<blockquote>\n<p>quote</p>\n</blockquote>\n<pre><code>code &lt;b&gt;\n</code></pre>\n<ol>\n<li>one</li>\n<li>two</li>\n</ol>\n<p><img src=\"i.png\" alt=\"alt\" /></p>\n"
    );
}

#[test]
fn rendering_twice_gives_the_same() {
    let source = "# T\n\nsome *text* and `code`\n";
    assert_eq!(render_markdown(source), render_markdown(source));
}

#[test]
fn scan_joins_the_text_of_the_first_heading() {
    let tokens = vec![
        Token::Other,
        Token::HeadingStart(1),
        text("a"),
        Token::Other,
        Token::Other,
        text("b"),
        Token::Other,
        Token::Other,
        Token::HeadingEnd,
        Token::HeadingStart(3),
        text("c"),
        Token::HeadingEnd,
        Token::Other,
    ];
    assert_eq!(heading_title(&tokens), Ok("ab".to_string()));
}

#[test]
fn scan_takes_code_for_text() {
    let tokens = vec![
        Token::HeadingStart(6),
        text("Use "),
        Token::Code(b"derive".to_vec()),
        Token::Other,
        text(" here"),
        Token::HeadingEnd,
    ];
    assert_eq!(heading_title(&tokens), Ok("Use derive here".to_string()));
    let bad = vec![Token::HeadingStart(1), Token::Code(vec![0x80]), Token::HeadingEnd];
    assert_eq!(heading_title(&bad), Err(RenderError::InvalidText));
}

#[test]
fn scan_does_not_look_at_levels() {
    for level in [0u32, 1, 2, 6, 7, u32::MAX] {
        let tokens = vec![
            Token::HeadingStart(level),
            text("first"),
            Token::HeadingEnd,
            Token::HeadingStart(1),
            text("second"),
            Token::HeadingEnd,
        ];
        assert_eq!(heading_title(&tokens), Ok("first".to_string()));
    }
}

#[test]
fn scan_of_nothing_and_of_no_heading() {
    assert_eq!(heading_title(&vec![]), Ok(String::new()));
    let tokens = vec![Token::Other, text("body"), Token::Other, Token::Other];
    assert_eq!(heading_title(&tokens), Ok(String::new()));
}

#[test]
fn scan_ignores_text_outside_the_first_heading() {
    let tokens = vec![
        text("before"),
        Token::HeadingEnd,
        Token::HeadingStart(1),
        text("in"),
        Token::HeadingEnd,
        text("after"),
    ];
    assert_eq!(heading_title(&tokens), Ok("in".to_string()));
}

#[test]
fn scan_takes_an_unfinished_heading_to_the_end() {
    let tokens = vec![Token::HeadingStart(1), text("x"), Token::Other, text("y")];
    assert_eq!(heading_title(&tokens), Ok("xy".to_string()));
}

#[test]
fn scan_ends_the_heading_at_the_first_heading_end() {
    let tokens = vec![
        Token::HeadingStart(1),
        text("a"),
        Token::HeadingStart(1),
        text("b"),
        Token::HeadingEnd,
        text("c"),
        Token::HeadingEnd,
    ];
    assert_eq!(heading_title(&tokens), Ok("ab".to_string()));
}

#[test]
fn scan_refuses_a_title_that_is_not_utf8() {
    let tokens = vec![Token::HeadingStart(1), text("ok"), Token::Text(vec![0xff, 0xfe]), Token::HeadingEnd];
    assert_eq!(heading_title(&tokens), Err(RenderError::InvalidText));
    let cut = vec![Token::HeadingStart(1), Token::Text(vec![0xe4, 0xb8]), Token::Text(vec![0x96]), Token::HeadingEnd];
    assert_eq!(heading_title(&cut), Err(RenderError::InvalidText));
}

#[test]
fn scan_does_not_mind_bad_bytes_outside_the_first_heading() {
    let tokens = vec![
        Token::Text(vec![0xff]),
        Token::HeadingStart(1),
        text("fine"),
        Token::HeadingEnd,
        Token::HeadingStart(1),
        Token::Text(vec![0xff]),
        Token::HeadingEnd,
    ];
    assert_eq!(heading_title(&tokens), Ok("fine".to_string()));
}

#[test]
fn scan_decodes_each_piece() {
    let tokens = vec![Token::HeadingStart(1), text("世"), text("界"), text(""), Token::HeadingEnd];
    assert_eq!(heading_title(&tokens), Ok("世界".to_string()));
}
