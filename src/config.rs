//! Settings shared by the parts of a run, made once at startup and passed along.
use vstd::prelude::*;
use crate::cli::Commands;

verus! {

/// The worker count a run uses unless told otherwise.
pub const DEFAULT_WORKER_COUNT: usize = 4;

/// The coordinator's address unless told otherwise.
pub open spec fn default_server_addr() -> Seq<char> {
    "127.0.0.1:9000"@
}

/// The coordinator's address and the number of workers.
pub struct Config {
    pub server_addr: String,
    pub worker_count: usize,
}

impl Config {
    /// The defaults: `127.0.0.1:9000` and four workers.
    pub fn new() -> (r: Self)
        ensures
            r.server_addr@ == default_server_addr(),
            r.worker_count == DEFAULT_WORKER_COUNT,
    {
        Config { server_addr: "127.0.0.1:9000".to_owned(), worker_count: DEFAULT_WORKER_COUNT }
    }
}

pub fn get_server_addr(config: &Config) -> (r: &str)
    ensures
        r@ == config.server_addr@,
{
    config.server_addr.as_str()
}

pub fn get_worker_count(config: &Config) -> (r: usize)
    ensures
        r == config.worker_count,
{
    config.worker_count
}

pub fn set_server_addr(config: &mut Config, addr: String)
    ensures
        final(config).server_addr@ == addr@,
        final(config).worker_count == old(config).worker_count,
{
    config.server_addr = addr;
}

pub fn set_worker_count(config: &mut Config, count: usize)
    ensures
        final(config).worker_count == count,
        final(config).server_addr@ == old(config).server_addr@,
{
    config.worker_count = count;
}

/// The settings a command asks for: `build` and `serve` set the address and the
/// worker count; the other commands leave `config` as it is.
pub fn configure(config: &mut Config, command: &Commands)
    ensures
        match command {
            Commands::Build { workers, address, .. } => final(config).worker_count == *workers
                && final(config).server_addr@ == address@,
            Commands::Serve { workers, address } => final(config).worker_count == *workers
                && final(config).server_addr@ == address@,
            _ => final(config).worker_count == old(config).worker_count
                && final(config).server_addr@ == old(config).server_addr@,
        },
{
    match command {
        Commands::Build { workers, address, .. } => {
            set_worker_count(config, *workers);
            set_server_addr(config, address.clone());
        },
        Commands::Serve { workers, address } => {
            set_worker_count(config, *workers);
            set_server_addr(config, address.clone());
        },
        _ => {},
    }
}

} // verus!
