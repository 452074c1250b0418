//! The command line.
use std::path::PathBuf;
use vstd::prelude::*;

verus! {

/// What the command line asks for.
#[derive(Debug)]
pub struct Cli {
    /// The directory in which a session is to be activated or created.
    pub workdir: PathBuf,
}

} // verus!
