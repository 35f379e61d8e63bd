//! Discovery and resolution of paginated gallery albums.
//!
//! The network sits outside this crate: callers fetch pages and hand their
//! text in, and the crate decides what to fetch next and what the pages hold.
pub mod album;
pub mod config;
pub mod paged;
pub mod path;
pub mod pattern;
pub mod retry;
pub mod text;
