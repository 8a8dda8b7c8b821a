//! Verified core of a game launcher: the first-run wizard, the components
//! manager, command-line handling, syncing the components index, and the
//! start-up and file-moving decisions.

pub mod cli;
pub mod components;
pub mod first_run;
pub mod launcher;
pub mod sync;
pub mod text;
pub mod wizard;
