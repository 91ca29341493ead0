use blogbuilder::title::{is_white_space_char, title_string};

#[test]
fn title_from_level_one_heading() {
    assert_eq!(title_string("# Hello World\n"), "Hello World");
}

#[test]
fn title_same_at_every_level() {
    for line in ["Title", "# Title", "### Title", "###### Title\n", "##   Title  \r\n"] {
        assert_eq!(title_string(line), "Title");
    }
}

#[test]
fn title_without_space_after_hashes() {
    assert_eq!(title_string("#Title"), "Title");
    assert_eq!(title_string("##Two words\n"), "Two words");
}

#[test]
fn title_without_hashes_is_trimmed_line() {
    assert_eq!(title_string("  Plain line \n"), "Plain line");
}

#[test]
fn title_keeps_inner_hashes() {
    assert_eq!(title_string("# C# tips #1\n"), "C# tips #1");
}

#[test]
fn title_of_hashes_alone_is_empty() {
    assert_eq!(title_string("###\n"), "");
    assert_eq!(title_string("###"), "");
    assert_eq!(title_string(""), "");
}

#[test]
fn title_trims_unicode_white_space() {
    assert_eq!(title_string("#\u{3000}Title\u{a0}\t\n"), "Title");
}

#[test]
fn title_of_hashes_after_space_stay() {
    assert_eq!(title_string("  # Title"), "# Title");
}

#[test]
fn white_space_agrees_with_std() {
    for u in 0u32..0x3100 {
        if let Some(c) = char::from_u32(u) {
            assert_eq!(is_white_space_char(c), c.is_whitespace(), "{:x}", u);
        }
    }
}
