//! The exporter's settings, as given on the command line.

use vstd::prelude::*;
use vstd::string::*;

verus! {

/// Commands sent to the process's main loop.
#[derive(PartialEq, Eq, Structural)]
pub enum Commands {
    Exit,
}

/// The exporter's settings.
pub struct Config {
    /// The hub's user name.
    pub username: String,
    /// The hub's password.
    pub password: String,
    /// Base URI of the hub's REST API.
    pub uri: String,
    /// Path of the file that lists the accepted bearer tokens.
    pub keyfile: String,
    /// Port the metrics server listens on.
    pub port: u16,
    /// Prefix of every metric name.
    pub prefix: Option<String>,
    /// Whether to log at debug level.
    pub debug: bool,
    pub worker_threads: Option<usize>,
    pub blocking_threads: Option<usize>,
    pub cpu_threads: Option<usize>,
}

/// The metric prefix used when none is configured.
pub open spec fn default_prefix() -> Seq<char> {
    "homebridge"@
}

impl Config {
    /// The prefix of every metric name: the configured one, else `homebridge`.
    pub fn metrics_prefix(&self) -> (r: String)
        ensures
            match self.prefix {
                Some(p) => r@ == p@,
                None => r@ == default_prefix(),
            },
    {
        match &self.prefix {
            Some(p) => p.clone(),
            None => String::from_str("homebridge"),
        }
    }

    /// The log level: `debug` in debug mode, else `info`.
    pub fn log_level(&self) -> (r: &'static str)
        ensures
            r@ == (if self.debug {
                "debug"@
            } else {
                "info"@
            }),
    {
        if self.debug {
            "debug"
        } else {
            "info"
        }
    }

    /// Worker threads of the runtime: the configured count, else 2.
    pub fn worker_thread_count(&self) -> (r: usize)
        ensures
            r == match self.worker_threads {
                Some(n) => n,
                None => 2,
            },
    {
        match self.worker_threads {
            Some(n) => n,
            None => 2,
        }
    }

    /// Threads for blocking calls: the configured count, else 1.
    pub fn blocking_thread_count(&self) -> (r: usize)
        ensures
            r == match self.blocking_threads {
                Some(n) => n,
                None => 1,
            },
    {
        match self.blocking_threads {
            Some(n) => n,
            None => 1,
        }
    }
}

} // verus!
