//! The already-validated configuration the caller hands in: an RPC
//! endpoint, a pause range between accounts, and whether proxies are in
//! use.  Loading and parsing the file it comes from is the caller's
//! business.
use vstd::prelude::*;

verus! {

pub struct Config {
    pub bsc_rpc: String,
    pub sleep_range: [u64; 2],
    pub use_proxy: bool,
}

impl Config {
    pub fn new(bsc_rpc: String, sleep_range: [u64; 2], use_proxy: bool) -> (c: Config)
        ensures
            c.bsc_rpc@ == bsc_rpc@,
            c.sleep_range == sleep_range,
            c.use_proxy == use_proxy,
    {
        Config { bsc_rpc, sleep_range, use_proxy }
    }
}

} // verus!
