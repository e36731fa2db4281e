//! A small HTTP client core: parsing of command-line fields into a request
//! description, and content-type aware rendering of a response.

pub mod error;
pub mod pair;
pub mod render;
pub mod request;
pub mod target;
pub mod text;

pub use error::HttpieError;
pub use pair::{parse_kv_pair, KvPair};
pub use render::{header_line, select_body, ResponseView};
pub use request::{body_members, build_get, build_post, json_body, Request};
pub use target::parse_url;
pub use text::{decimal_text, matches_ignore_ascii_case};
