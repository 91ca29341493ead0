use blogbuilder::patch::update_homepage;
use blogbuilder::render::{
    output_file_name, render_post, wrap_page, RenderError, PAGE_FOOTER, PAGE_HEADER, THEME,
};
use blogbuilder::title::title_string;

#[test]
fn page_wraps_body() {
    let page = wrap_page("<p>hi</p>\n");
    assert_eq!(page, format!("{}<p>hi</p>\n{}", PAGE_HEADER, PAGE_FOOTER));
    assert!(PAGE_HEADER.starts_with("<meta name=\"viewport\""));
    assert!(PAGE_HEADER.ends_with("<article class=\"markdown-body\">"));
}

#[test]
fn render_bold_text() {
    let page = render_post("**bold** text", THEME).unwrap();
    assert_eq!(page, format!("{}<p><strong>bold</strong> text</p>\n{}", PAGE_HEADER, PAGE_FOOTER));
}

#[test]
fn render_is_deterministic() {
    let md = "# Title\n\n```rust\nfn main() {}\n```\n\n| a | b |\n|---|---|\n| 1 | 2 |\n";
    let first = render_post(md, THEME).unwrap();
    let second = render_post(md, THEME).unwrap();
    assert_eq!(first, second);
}

#[test]
fn render_uses_extensions() {
    let page = render_post("~~gone~~ and \"quoted\"\n\n- [x] done\n", THEME).unwrap();
    assert!(page.contains("<del>gone</del>"));
    assert!(page.contains("\u{201c}quoted\u{201d}"));
    assert!(page.contains("checkbox"));
}

#[test]
fn render_highlights_code() {
    let page = render_post("```python\nprint(1)\n```\n", THEME).unwrap();
    assert!(page.contains("<pre style=\"background-color:#2b303b;\">"));
}

#[test]
fn render_with_unknown_theme_fails() {
    assert_eq!(render_post("text", "no such theme"), Err(RenderError::Highlight));
}

#[test]
fn page_file_name() {
    assert_eq!(output_file_name("hello-world.md"), "hello-world.html");
}

#[test]
fn hello_world_pipeline() {
    let source = "# Hello World\n**bold** text";
    let first_line = "# Hello World\n";
    assert_eq!(title_string(first_line), "Hello World");
    let page = render_post(source, THEME).unwrap();
    assert!(page.starts_with(PAGE_HEADER));
    assert!(page.ends_with(PAGE_FOOTER));
    assert!(page.contains("<strong>bold</strong> text"));
    assert_eq!(output_file_name("hello-world.md"), "hello-world.html");
    let home = update_homepage("<p>-->old<!--END</p>", "hello-world.md", first_line);
    assert_eq!(
        home,
        "<p>-->&nbsp;<a href=\"https://blog.danyaal.xyz/hello-world.html\" class=\"blogtitle hover:underline\">Hello World</a><!--END</p>"
    );
}
