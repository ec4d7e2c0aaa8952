//! Answers a free-text query by scraping an emoji reference site: a search
//! page is parsed into entry references, each entry's detail page is resolved
//! to its vendor image, the image bytes are cached on disk, and the surviving
//! entries are assembled, in search order, into a single displayable response.

pub mod model;
pub mod keys;
pub mod net;
pub mod search;
pub mod resolver;
pub mod cache;
pub mod assembler;
