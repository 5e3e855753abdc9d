//! The command line of the exporter, as plain values.
use vstd::prelude::*;

verus! {

/// Access token and the command to run.
#[derive(Clone, Debug)]
pub struct Args {
    pub token: String,
    pub subcommand: Command,
}

/// What the exporter is asked to do.
#[derive(Clone, Debug)]
pub enum Command {
    /// Export the named images, with the configuration at `path_to_config`.
    Images { names: Vec<String>, path_to_config: String },
    /// Write a default configuration to `path`.
    Config { path: String },
}

} // verus!
