//! Rendered post pages: the markdown engine's HTML wrapped in the site's
//! fixed header and footer.
use vstd::prelude::*;
use vstd::string::*;
use pulldown_cmark::Options;

verus! {

/// The syntax-highlighting theme for fenced code blocks.
pub const THEME: &'static str = "base16-ocean.dark";

/// What every page starts with: viewport, style sheet, the dark reading
/// column, and the form that leads back to the blog's homepage.
pub const PAGE_HEADER: &'static str = "<meta name=\"viewport\" content=\"width=device-width, initial-scale=1\">
    <link rel=\"stylesheet\" href=\"github-markdown-dark.css\">
    <style>
        .markdown-body {
            box-sizing: border-box;
            min-width: 200px;
            max-width: 980px;
            margin: 0 auto;
            padding: 45px;
        }
    
        @media (max-width: 767px) {
            .markdown-body {
                padding: 15px;
            }
        }
    
        body {
            color-scheme: dark;
            -ms-text-size-adjust: 100%;
            -webkit-text-size-adjust: 100%;
            margin: 0;
            color: #c9d1d9;
            background-color: #0d1117;
            font-family: -apple-system, BlinkMacSystemFont, \"Segoe UI\", \"Noto Sans\", Helvetica, Arial, sans-serif, \"Apple Color Emoji\", \"Segoe UI Emoji\";
            font-size: 16px;
            line-height: 1.5;
            word-wrap: break-word;
        }
    </style>
    
    <body>
    <form class=\"navbar\" action=\"https://blog.danyaal.xyz\">
            <input class=\"blog-hp\" type=\"submit\" value=\"Blog Homepage\" />
          </form>
    <article class=\"markdown-body\">";

/// What closes every page.
pub const PAGE_FOOTER: &'static str = "</article></body>";

/// The HTML that the markdown engine makes of `md`, with the extensions
/// strikethrough, tables, footnotes, task lists, smart punctuation and
/// heading attributes, and with code blocks highlighted in `theme`; `None`
/// where highlighting fails.
pub uninterp spec fn rendered_markdown(md: Seq<char>, theme: Seq<char>) -> Option<Seq<char>>;

/// `highlight_pulldown::Error`, the highlighter's refusal, carried through
/// unread.
#[verifier::external_type_specification]
#[verifier::external_body]
pub struct ExHighlightError(highlight_pulldown::Error);

/// Why a page could not be rendered.
#[derive(Debug, PartialEq, Eq, Structural)]
pub enum RenderError {
    /// The highlighter refused the theme or a code block.
    Highlight,
}

/// Relies on `pulldown_cmark::Parser::new_ext`, on
/// `highlight_pulldown::highlight_with_theme` and on
/// `pulldown_cmark::html::push_html`: the outcome depends on the markdown
/// and the theme alone.
#[verifier::external_body]
fn render_markdown(md: &str, theme: &str) -> (r: Result<String, highlight_pulldown::Error>)
    ensures
        r is Ok <==> rendered_markdown(md@, theme@) is Some,
        r is Ok ==> r->Ok_0@ == rendered_markdown(md@, theme@)->0,
{
    let options = Options::ENABLE_STRIKETHROUGH | Options::ENABLE_TABLES
        | Options::ENABLE_FOOTNOTES | Options::ENABLE_TASKLISTS
        | Options::ENABLE_SMART_PUNCTUATION | Options::ENABLE_HEADING_ATTRIBUTES;
    let parser = pulldown_cmark::Parser::new_ext(md, options);
    let events = highlight_pulldown::highlight_with_theme(parser, theme)?;
    let mut html = String::new();
    pulldown_cmark::html::push_html(&mut html, events.into_iter());
    Ok(html)
}

/// A page around a rendered body.
pub open spec fn page_of(body: Seq<char>) -> Seq<char> {
    PAGE_HEADER@ + body + PAGE_FOOTER@
}

/// The page for a markdown source with code highlighted in `theme`, where
/// it can be rendered.
pub open spec fn page_for(md: Seq<char>, theme: Seq<char>) -> Option<Seq<char>> {
    match rendered_markdown(md, theme) {
        Some(body) => Some(page_of(body)),
        None => None,
    }
}

/// The page around an already rendered body.
pub fn wrap_page(body: &str) -> (r: String)
    ensures
        r@ == page_of(body@),
{
    let mut r = String::from_str(PAGE_HEADER);
    r.append(body);
    r.append(PAGE_FOOTER);
    r
}

/// The page for a markdown source: the engine's HTML, with code highlighted
/// in `theme` (the site uses `THEME`), between the fixed header and footer.
pub fn render_post(md: &str, theme: &str) -> (r: Result<String, RenderError>)
    ensures
        r is Ok <==> page_for(md@, theme@) is Some,
        r matches Ok(page) ==> page@ == page_for(md@, theme@)->0,
        r matches Err(e) ==> e == RenderError::Highlight,
{
    match render_markdown(md, theme) {
        Ok(body) => Ok(wrap_page(body.as_str())),
        Err(_) => Err(RenderError::Highlight),
    }
}

/// The extension of a rendered page.
pub const HTML_EXTENSION: &'static str = ".html";

/// The name of the page made from the source with this file name.
pub open spec fn page_name_of(source_name: Seq<char>) -> Seq<char> {
    crate::discover::stem_of(source_name) + HTML_EXTENSION@
}

/// The file name of the page made from a source (`hello-world.md` gives
/// `hello-world.html`).
pub fn output_file_name(source_name: &str) -> (r: String)
    ensures
        r@ == page_name_of(source_name@),
{
    let stem = crate::discover::slug_of(source_name);
    stem.concat(HTML_EXTENSION)
}

/// Rendering is deterministic: the same source and theme give the same
/// page, or fail both.
pub proof fn lemma_render_deterministic(md1: Seq<char>, md2: Seq<char>, theme: Seq<char>)
    requires
        md1 == md2,
    ensures
        page_for(md1, theme) == page_for(md2, theme),
{
}

} // verus!
