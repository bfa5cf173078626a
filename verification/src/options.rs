use vstd::prelude::*;

verus! {

/// Configuration for a server: the address to listen on and the number of
/// workers in its pool. A pool of zero workers could never drain submitted
/// work, so `workers` is required to be positive from the start.
pub struct Options {
    pub addr: String,
    pub workers: usize,
}

impl Options {
    pub fn new(addr: String, workers: usize) -> (r: Options)
        requires
            workers >= 1,
        ensures
            r.addr == addr,
            r.workers == workers,
    {
        Options { addr, workers }
    }
}

} // verus!
