use blogbuilder::patch::{anchor_fragment, patch_homepage, update_homepage};

const LINK: &str = "-->&nbsp;<a href=\"https://blog.danyaal.xyz/new-post.html\" class=\"blogtitle hover:underline\">New Post</a><!--END";

#[test]
fn anchor_has_fixed_shape() {
    assert_eq!(anchor_fragment("new-post", "New Post"), LINK);
}

#[test]
fn patch_replaces_the_single_region() {
    let doc = "<html>\n<p>Latest:<!-- start -->OLD<!--END</p>\n</html>\n";
    let expected = format!("<html>\n<p>Latest:<!-- start {}</p>\n</html>\n", LINK);
    assert_eq!(patch_homepage(doc, "new-post", "New Post"), expected);
}

#[test]
fn patch_without_region_is_identity() {
    let doc = "<html>\n<p>No marker here --> at all</p>\n<!--END\n</html>";
    assert_eq!(patch_homepage(doc, "new-post", "New Post"), doc);
    assert_eq!(patch_homepage("", "new-post", "New Post"), "");
}

#[test]
fn patch_replaces_only_first_line_region() {
    let doc = "a-->ONE<!--END\nb-->TWO<!--END\n";
    let expected = format!("a{}\nb-->TWO<!--END\n", LINK);
    assert_eq!(patch_homepage(doc, "new-post", "New Post"), expected);
}

#[test]
fn patch_region_reaches_last_end_on_its_line() {
    let doc = "x-->A<!--END y<!--END z";
    let expected = format!("x{} z", LINK);
    assert_eq!(patch_homepage(doc, "new-post", "New Post"), expected);
}

#[test]
fn patch_takes_title_literally() {
    let doc = "-->OLD<!--END";
    let patched = patch_homepage(doc, "p", "Costs $1 and ${2}");
    assert!(patched.contains(">Costs $1 and ${2}</a>"));
}

#[test]
fn update_homepage_from_file_name_and_first_line() {
    let doc = "<span>-->stale<!--END</span>";
    let expected = format!("<span>{}</span>", LINK);
    assert_eq!(update_homepage(doc, "new-post.md", "## New Post  \n"), expected);
}
