//! What the command line asks for.

use vstd::prelude::*;
use crate::aggregate::Command;

verus! {

/// The form of the output.
#[derive(Clone, Copy, Debug, PartialEq, Eq, Structural)]
pub enum OutputFormat {
    Json,
    Text,
}

/// A parsed command line: the command, if any, and the output's form.
#[derive(Debug)]
pub struct Cli {
    pub command: Option<Command>,
    pub format: OutputFormat,
}

} // verus!
