//! Extraction of structured records (articles, posts, replies, quotes and
//! pagination) from the HTML of a forum's listing pages and thread pages.

pub mod text;
pub mod time;
pub mod dom;
pub mod content;
pub mod extract;
pub mod detail;
pub mod summary;
pub mod viewer;
pub mod icon;
pub mod left_bar;
pub mod http;
