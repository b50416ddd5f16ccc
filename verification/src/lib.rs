//! Date-keyed link index: the rules that keep a year/month/day tree of
//! symbolic links in step with a stream of file events.
//!
//! The crate decides; it never touches the file system. A caller feeds it
//! events and probe results and carries out the steps it answers with.

pub mod calendar;
pub mod date_key;
pub mod dispatch;
pub mod index_model;
pub mod index_path;
pub mod link_plan;
