use vstd::prelude::*;

verus! {

/// Why a configuration cannot be used.
#[derive(Debug, Clone, Copy, PartialEq, Eq, Structural)]
pub enum ConfigError {
    /// The upstream list is empty: there is no primary to relay from.
    NoUpstreams,
    /// A worker pool of size zero was asked for.
    EmptyWorkerPool,
}

/// The relay's configuration: where to listen, which upstreams to mirror to
/// (the first is the primary), whether to serve a single connection, and an
/// optional bound on the number of worker threads.
#[derive(Debug, Clone)]
pub struct Config {
    pub upstreams: Vec<String>,
    pub listen_addr: String,
    pub run_once: Option<bool>,
    pub worker_pool_size: Option<usize>,
}

impl Config {
    /// A configuration is usable when it names at least one upstream and, if
    /// it bounds the worker pool, bounds it by a positive size.
    pub open spec fn valid(&self) -> bool {
        &&& self.upstreams@.len() > 0
        &&& match self.worker_pool_size {
            Some(k) => k > 0,
            None => true,
        }
    }

    /// Builds a configuration from its fields, rejecting an empty upstream
    /// list and a worker pool of size zero.
    pub fn new(
        listen_addr: String,
        upstreams: Vec<String>,
        run_once: Option<bool>,
        worker_pool_size: Option<usize>,
    ) -> (r: Result<Config, ConfigError>)
        ensures
            upstreams@.len() == 0 ==> r == Err::<Config, ConfigError>(ConfigError::NoUpstreams),
            upstreams@.len() > 0 && worker_pool_size == Some(0usize) ==> r == Err::<
                Config,
                ConfigError,
            >(ConfigError::EmptyWorkerPool),
            r is Ok <==> (upstreams@.len() > 0 && worker_pool_size != Some(0usize)),
            r matches Ok(c) ==> {
                &&& c.valid()
                &&& c.upstreams == upstreams
                &&& c.listen_addr == listen_addr
                &&& c.run_once == run_once
                &&& c.worker_pool_size == worker_pool_size
            },
    {
        if upstreams.len() == 0 {
            return Err(ConfigError::NoUpstreams);
        }
        match worker_pool_size {
            Some(k) => {
                if k == 0 {
                    return Err(ConfigError::EmptyWorkerPool);
                }
            },
            None => {},
        }
        Ok(Config { upstreams, listen_addr, run_once, worker_pool_size })
    }

    /// Whether the accept loop stops after handing out its first connection.
    pub open spec fn serves_once(&self) -> bool {
        self.run_once == Some(true)
    }

    /// Whether the accept loop stops once it has accepted one connection:
    /// true exactly when `run_once` is set to true.
    pub fn stops_after_accept(&self) -> (r: bool)
        ensures
            r == self.serves_once(),
    {
        match self.run_once {
            Some(b) => b,
            None => false,
        }
    }

    /// The number of upstreams a session dials.
    pub fn upstream_count(&self) -> (r: usize)
        ensures
            r == self.upstreams@.len(),
    {
        self.upstreams.len()
    }
}

} // verus!
