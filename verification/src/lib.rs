//! Decision logic of a package-management frontend that installs packages
//! from the binary repositories and from the AUR.
//!
//! The library never touches the system. It says which question to ask or
//! which command to run next, and takes the answer as a plain value. The
//! program around it runs the native manager, the registry client, git, the
//! pager and the build tool.

pub mod cleanup;
pub mod detect;
pub mod error;
pub mod fetch;
pub mod graph;
pub mod guarantees;
pub mod install;
pub mod known;
pub mod logging;
pub mod names;
pub mod package;
pub mod paging;
pub mod pipeline;
pub mod prompt;
pub mod resolve;
pub mod review;
pub mod sort;
pub mod text;
pub mod ver;
