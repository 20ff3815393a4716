use md_confluence::{markdown_to_confluence, markdown_to_html, render_page};

#[test]
fn document_with_heading_emphasis_and_list() {
    let out = markdown_to_confluence("# Title\n\nSome *bold* and _em_ text.\n\n- one\n- two\n");
    assert_eq!(out, "\n\nh1. Title\nSome  _bold_  and  _em_  text.* one* two\n");
    let order = ["h1. Title", "Some ", "bold", "and", "_em_", "text.", "* one", "* two"];
    let mut from = 0;
    for piece in order {
        let at = out[from..].find(piece).expect("fragment missing or out of order");
        from += at + piece.len();
    }
}

#[test]
fn strong_text_is_starred() {
    assert_eq!(markdown_to_confluence("**b**"), " *b* ");
}

#[test]
fn inline_code_is_wrapped() {
    let out = markdown_to_confluence("`x = 1`");
    assert!(out.contains("{{x = 1}}"));
    assert!(!out.contains('`'));
    assert_eq!(out, "' {{x = 1}} '");
}

#[test]
fn plain_prose_is_unchanged() {
    assert_eq!(markdown_to_confluence("just some words"), "just some words");
    assert_eq!(markdown_to_confluence(""), "");
}

#[test]
fn soft_break_becomes_newline() {
    assert_eq!(markdown_to_confluence("a\nb"), "a\nb");
}

#[test]
fn ordered_list_from_markdown() {
    assert_eq!(markdown_to_confluence("1. a\n2. b\n"), "\n# a\n# b\n");
}

#[test]
fn nested_list_from_markdown() {
    assert_eq!(markdown_to_confluence("- a\n  1. b\n"), "* a\n## b\n");
}

#[test]
fn fenced_plaintext_from_markdown() {
    assert_eq!(
        markdown_to_confluence("```plaintext\necho hi\n```\n"),
        "\n{code:language=sh}\necho hi\n{code}"
    );
}

#[test]
fn fenced_python_from_markdown() {
    assert_eq!(
        markdown_to_confluence("```python\nx = 1\n```\n"),
        "\n{code:language=python}\nx = 1\n{code}"
    );
}

#[test]
fn indented_code_from_markdown() {
    assert_eq!(markdown_to_confluence("    x\n"), "\n{code}\nx\n{code}");
}

#[test]
fn raw_html_block_from_markdown() {
    assert_eq!(markdown_to_confluence("<div>hi</div>\n"), "{html}<div>hi</div>\n{html}");
}

#[test]
fn link_from_markdown() {
    assert_eq!(markdown_to_confluence("[text](http://x \"T\")"), "[http://xtext] T");
}

#[test]
fn converting_twice_is_identical() {
    let doc = "## A\n\n- x\n  - y\n\n`c`\n";
    assert_eq!(markdown_to_confluence(doc), markdown_to_confluence(doc));
}

#[test]
fn html_rendering() {
    assert_eq!(markdown_to_html("# hi"), "<h1>hi</h1>\n");
}

#[test]
fn page_fills_both_placeholders() {
    let page = render_page(
        "<div>{{ rendered_html }}</div><pre>{{ confluence_content }}</pre>",
        "# hi",
    );
    assert_eq!(page, "<div><h1>hi</h1>\n</div><pre>\n\nh1. hi\n</pre>");
}

#[test]
fn page_without_placeholders_is_kept() {
    assert_eq!(render_page("static page", "# hi"), "static page");
}

#[test]
fn deeper_heading_levels_from_markdown() {
    assert_eq!(markdown_to_confluence("### Three"), "\n\nh3. Three\n");
    assert_eq!(markdown_to_confluence("###### Six"), "\n\nh6. Six\n");
}

#[test]
fn inline_html_from_markdown() {
    assert_eq!(
        markdown_to_confluence("a <b>x</b>"),
        "a {html}<b>{html}x{html}</b>{html}"
    );
}

#[test]
fn link_title_reaches_the_link_end() {
    assert_eq!(
        markdown_to_confluence("[a](http://x \"T\") and [b](http://y)"),
        "[http://xa] T and [http://yb]"
    );
}

#[test]
fn prose_lines_are_unchanged() {
    assert_eq!(markdown_to_confluence("Plain words here\nand a second line"), "Plain words here\nand a second line");
}
