//! The command-line front end of a tool that keeps a project's files on disk
//! in step with a running editor.
//!
//! The front end selects one of four operations, `init`, `serve`, `build`
//! and `upload`, validates the arguments given to it, resolves its paths
//! against the current directory, and builds the record of options that the
//! operation is run with. Running the operation is left to the caller; this
//! library decides what is to be run and how the process is to end.
//!
//! - [`schema`] declares the subcommands and the arguments of each.
//! - [`matches`] holds the values that a parsed command line gave to them.
//! - [`number`] reads the decimal numbers among those values.
//! - [`path`] resolves a path against the current directory.
//! - [`options`] holds the option records.
//! - [`dispatch`] puts these together: from a subcommand and its values to
//!   the action to take, and from an operation's outcome to the exit.
//! - [`text`] compares pieces of text.

pub mod dispatch;
pub mod matches;
pub mod number;
pub mod options;
pub mod path;
pub mod schema;
pub mod text;
