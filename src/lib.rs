//! Builds a small static blog: titles of posts, the homepage's link to the
//! newest post, the choice of files to convert, and the rendered pages.
pub mod discover;
pub mod patch;
pub mod render;
pub mod title;
