//! Flattener: a verified library that renames the files of a directory tree
//! in place, so that every file name carries the lower-cased, `" - "`-joined
//! chain of directory names leading down to it. Directories whose name starts
//! with `.` or `_` are not descended into, and files whose name starts with
//! `.` are never renamed.

pub mod prefix;
pub mod text;
pub mod tree;

pub use prefix::new_prefix;
pub use text::leading_char;
pub use tree::flatten;
pub use tree::rename;
pub use tree::should_traverse;
