//! The four batch workflows, reduced to their decisions: each module
//! plans the work of one command from plain values, and the surrounding
//! application carries the plan out against the file system.

pub mod add_links;
pub mod create_animated;
pub mod create_hyprcursor;
pub mod rename_cursors;
