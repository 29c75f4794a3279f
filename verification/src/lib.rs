//! The decisions of a desktop application's native shell: which windows to
//! show, close, focus or create, and how the machine's identifier is
//! resolved.
//!
//! The library touches no window and no file. `windows` and `identity`
//! decide what is to be done and, from the outcome, how to go on; the
//! application carries it out. `resolution` states what a whole resolution
//! of the identifier amounts to. `ioreg` and `text` hold the parsing that
//! the identity sources need, and `composition` what the application is
//! assembled from.

pub mod composition;
pub mod identity;
pub mod ioreg;
pub mod resolution;
pub mod text;
pub mod windows;
