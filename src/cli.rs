//! The commands a run can be started with.
use vstd::prelude::*;

verus! {

/// A parsed command line.
pub struct Cli {
    pub command: Commands,
}

/// What a run does.
pub enum Commands {
    /// Start the controller and build the given C files locally.
    Build { files: Vec<String>, workers: usize, address: String },
    /// Start a server that accepts file submissions from clients.
    Serve { workers: usize, address: String },
    /// Submit C files to a build server.
    Submit { files: Vec<String>, server: String },
    /// Run as a worker with this identity.
    Worker { id: String },
}

} // verus!
