//! Host-side logic of a desktop front end for the `bugnosis` command-line tool:
//! how each UI request becomes an invocation of the tool, how the tool's exit
//! status and output become an outcome, and how tray input becomes an action.

pub mod text;
pub mod dispatch;
pub mod tray;
