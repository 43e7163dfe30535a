//! Command-line data: the commands and their arguments as plain values,
//! which the surrounding binary fills from the process's arguments.

use vstd::prelude::*;

verus! {

/// Top-level arguments of the server binary.
#[derive(Debug, Clone)]
pub struct VxsArgs {
    /// Print debugging detail.
    pub debug: bool,
    /// The command to run.
    pub cmd: VxCommand,
}

/// The commands the binary offers.
#[derive(Debug, Clone)]
pub enum VxCommand {
    /// Starts the server, bound to the specified address.
    Start(VxCommandStartArgs),
    /// Shows the list of processes running the server.
    Proc(VxCommandProcArgs),
}

/// Arguments of the start command.
#[derive(Debug, Clone)]
pub struct VxCommandStartArgs {
    /// Binding address, as "host:port".
    pub address: String,
    /// Verbose logging.
    pub verbose: bool,
    /// Where the log file goes.
    pub log_path: String,
    /// Capacity of the connection permit pool.
    pub max_connections: usize,
    /// Whether the server was spawned in the background rather than started
    /// in the foreground.
    pub detached: bool,
}

/// Arguments of the process-listing command.
#[derive(Debug, Clone)]
pub struct VxCommandProcArgs {
    /// Print at most this many processes; all of them when absent.
    pub limit: Option<usize>,
    /// Keep printing until cancelled, refreshing each round.
    pub continuous: bool,
    /// Refresh interval in seconds for continuous printing.
    pub interval: u64,
}

/// Arguments of the upload server binary.
#[derive(Debug, Clone)]
pub struct Args {
    /// Listening address.
    pub addr: String,
    /// Path to the configuration file.
    pub config: String,
    /// Upload location for keeping the stored files.
    pub destination: String,
}

/// How many entries of a process list to print: the requested limit,
/// clamped to the list's length so that printing never reaches past the
/// list; the whole list when no limit is given.
pub fn list_limit(limit: Option<usize>, len: usize) -> (r: usize)
    ensures
        r == match limit {
            Some(l) => if l <= len {
                l as int
            } else {
                len as int
            },
            None => len as int,
        },
        r <= len,
{
    match limit {
        Some(l) => if l <= len {
            l
        } else {
            len
        },
        None => len,
    }
}

} // verus!
