//! A crawler for a paginated forum archive, as a library of decisions.
//!
//! The library reads documents, plans what is to be fetched, stored and
//! logged, and paces requests; it opens no file and no connection. Each
//! piece of work that waits on the outside is a small machine with two
//! methods: `action` says what to do next, `advance` takes note of what came
//! of it. A program runs the loop around them.
//!
//! - `ratelimiter`: token bucket with a random delay after each admission.
//! - `helper_methods`: one GET with a bounded number of attempts.
//! - `dom`, `html_parsing`: elements of a document, and what is read out of
//!   a post.
//! - `media_store`: where an attachment goes and how it gets there.
//! - `crawler`: pages, threads and posts in their order.
//! - `file_list`: attachments named in a list of hyperlinks.
//! - `dir_flattener`, `duplicate_image_remover`, `file_separation`,
//!   `remove_duplicate_urls_from_file`: four tools for tidying up what was
//!   stored.
//! - `config`, `cli`, `text`: settings, command lines, characters.

pub mod cli;
pub mod config;
pub mod crawler;
pub mod dir_flattener;
pub mod dom;
pub mod duplicate_image_remover;
pub mod file_list;
pub mod file_separation;
pub mod helper_methods;
pub mod html_parsing;
pub mod media_store;
pub mod ratelimiter;
pub mod remove_duplicate_urls_from_file;
pub mod text;
