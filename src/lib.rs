//! Adding a task to a task tracker from a small window: the command line
//! that is started, the decisions of a non-blocking poll over the started
//! command's output lines and exit, and the deletion of a word before a
//! cursor in the entry.

pub mod edit;
pub mod launch;
pub mod status;
pub mod stream;
