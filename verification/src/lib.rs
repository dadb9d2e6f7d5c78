//! A small diary helper library.
//!
//! The library computes everything a dated-diary tool decides: which calendar
//! date an entry belongs to, the monthly file name, the day's heading line,
//! the idempotent template update of a file's lines, editor and directory
//! resolution, and the post-editor git decisions. All of it carries proved
//! contracts; a thin binary around it performs the file, process and
//! environment work.

pub mod date;
pub mod digits;
pub mod naming;
pub mod plan;
pub mod template;
