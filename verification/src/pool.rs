//! Ordered endpoint pool with an explicit rotation cursor.
//!
//! The pool is fixed at construction; the cursor selects the current
//! endpoint and advances by one (modulo the pool length) on each
//! network-level failure, giving round-robin-on-failure rotation.

use vstd::prelude::*;
use vstd::string::*;

verus! {

pub struct EndpointPool {
    pub urls: Vec<String>,
    pub cursor: usize,
}

impl EndpointPool {
    /// The pool is never empty and the cursor always indexes into it.
    pub open spec fn wf(&self) -> bool {
        self.urls@.len() > 0 && self.cursor < self.urls@.len()
    }

    /// The endpoint the next attempt will target.
    pub open spec fn current_url(&self) -> Seq<char> {
        self.urls@[self.cursor as int]@
    }

    pub fn new(urls: Vec<String>) -> (p: Self)
        requires
            urls@.len() > 0,
        ensures
            p.wf(),
            p.urls == urls,
            p.cursor == 0,
    {
        EndpointPool { urls, cursor: 0 }
    }

    pub fn current(&self) -> (u: &String)
        requires
            self.wf(),
        ensures
            u@ == self.current_url(),
    {
        &self.urls[self.cursor]
    }

    /// Rotates to the next endpoint.
    pub fn advance(&mut self)
        requires
            old(self).wf(),
        ensures
            final(self).wf(),
            final(self).urls == old(self).urls,
            final(self).cursor == (old(self).cursor + 1) % (old(self).urls@.len() as int),
    {
        let n = self.urls.len();
        self.cursor = (self.cursor + 1) % n;
    }

    pub fn len(&self) -> (n: usize)
        ensures
            n == self.urls@.len(),
    {
        self.urls.len()
    }
}

/// The verified client: an endpoint pool owning its rotation cursor.
pub struct RpcService {
    pub pool: EndpointPool,
}

impl RpcService {
    pub open spec fn wf(&self) -> bool {
        self.pool.wf()
    }

    /// A service over the default public provider endpoints.
    pub fn new() -> (s: Self)
        ensures
            s.wf(),
            s.pool.cursor == 0,
            s.pool.urls@.len() == 4,
            s.pool.urls@[0]@ == "https://rpc.starknet.lava.build"@,
            s.pool.urls@[1]@ == "https://starknet-mainnet.g.alchemy.com/v2/demo"@,
            s.pool.urls@[2]@ == "https://starknet-mainnet.public.blastapi.io"@,
            s.pool.urls@[3]@ == "https://free-rpc.nethermind.io/mainnet-juno"@,
    {
        let mut urls: Vec<String> = Vec::new();
        urls.push(String::from_str("https://rpc.starknet.lava.build"));
        urls.push(String::from_str("https://starknet-mainnet.g.alchemy.com/v2/demo"));
        urls.push(String::from_str("https://starknet-mainnet.public.blastapi.io"));
        urls.push(String::from_str("https://free-rpc.nethermind.io/mainnet-juno"));
        RpcService { pool: EndpointPool::new(urls) }
    }

    /// A service over a caller-supplied, non-empty endpoint list.
    pub fn with_endpoints(urls: Vec<String>) -> (s: Self)
        requires
            urls@.len() > 0,
        ensures
            s.wf(),
            s.pool.urls == urls,
            s.pool.cursor == 0,
    {
        RpcService { pool: EndpointPool::new(urls) }
    }
}

impl Default for RpcService {
    fn default() -> (s: Self)
        ensures
            s.wf(),
            s.pool.urls@.len() == 4,
            s.pool.cursor == 0,
    {
        RpcService::new()
    }
}

} // verus!
