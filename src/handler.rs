//! The handler: the pipeline from the link-local candidates to their probing,
//! wired for one interface.
use vstd::prelude::*;
use crate::batcher::{IpBatcher, batch_len};
use crate::codec::{Ipv4, MacAddr};
use crate::finder::FreeIpFinder;
use crate::net::{LocalLinkNet, candidates};
use crate::probe::{BatchProbe, timed_out};
use crate::selector::{SelectIp, SequentialIpSelector};

verus! {

/// The default number of attempts for each address.
pub const DEFAULT_N_RETRIES: usize = 5;

/// The default wait for a reply, in milliseconds.
pub const DEFAULT_RESPONSE_TIMEOUT_MS: u64 = 500;

/// The default lifetime of a cached reply, in milliseconds.
pub const DEFAULT_CACHE_TIMEOUT_MS: u64 = 60_000;

/// The default number of addresses probed side by side.
pub const DEFAULT_BATCH_SIZE: usize = 32;

/// How each address is probed.
#[derive(Clone, Copy, Debug, PartialEq, Eq, Structural)]
pub struct Ipv4ScanConfig {
    /// Attempts for each address before it counts as free.
    pub n_retries: usize,
    /// The wait for a reply to each attempt, in milliseconds.
    pub response_timeout_ms: u64,
    /// The lifetime of a cached reply, in milliseconds.
    pub cache_timeout_ms: u64,
}

impl Ipv4ScanConfig {
    /// Five attempts, half a second each, replies cached for a minute.
    pub open spec fn spec_default() -> Self {
        Ipv4ScanConfig {
            n_retries: DEFAULT_N_RETRIES,
            response_timeout_ms: DEFAULT_RESPONSE_TIMEOUT_MS,
            cache_timeout_ms: DEFAULT_CACHE_TIMEOUT_MS,
        }
    }

    /// The default configuration.
    pub fn new() -> (r: Self)
        ensures
            r == Self::spec_default(),
    {
        Ipv4ScanConfig {
            n_retries: DEFAULT_N_RETRIES,
            response_timeout_ms: DEFAULT_RESPONSE_TIMEOUT_MS,
            cache_timeout_ms: DEFAULT_CACHE_TIMEOUT_MS,
        }
    }

    pub fn with_n_retries(self, n_retries: usize) -> (r: Self)
        ensures
            r == (Ipv4ScanConfig { n_retries, ..self }),
    {
        Ipv4ScanConfig { n_retries, ..self }
    }

    pub fn with_response_timeout_ms(self, response_timeout_ms: u64) -> (r: Self)
        ensures
            r == (Ipv4ScanConfig { response_timeout_ms, ..self }),
    {
        Ipv4ScanConfig { response_timeout_ms, ..self }
    }

    pub fn with_cache_timeout_ms(self, cache_timeout_ms: u64) -> (r: Self)
        ensures
            r == (Ipv4ScanConfig { cache_timeout_ms, ..self }),
    {
        Ipv4ScanConfig { cache_timeout_ms, ..self }
    }
}

impl Default for Ipv4ScanConfig {
    fn default() -> (r: Self)
        ensures
            r == Self::spec_default(),
    {
        Ipv4ScanConfig::new()
    }
}

/// What the handler is wired with.
#[derive(Clone, Debug)]
pub struct Ipv4HandlerConfig {
    pub scan: Ipv4ScanConfig,
    /// The number of addresses probed side by side; at least one.
    pub batch_size: usize,
    /// The name of the interface, e.g. `eth0`.
    pub interface: String,
}

impl Ipv4HandlerConfig {
    /// The default scan and batch size on the named interface.
    pub fn new(interface: String) -> (r: Self)
        ensures
            r.scan == Ipv4ScanConfig::spec_default(),
            r.batch_size == DEFAULT_BATCH_SIZE,
            r.interface == interface,
    {
        Ipv4HandlerConfig { scan: Ipv4ScanConfig::new(), batch_size: DEFAULT_BATCH_SIZE, interface }
    }
}

/// The search for free link-local addresses: the candidates of 169.254.0.0/16
/// in ascending order, in batches, each probed from one hardware address.
pub struct Ipv4Handler {
    finder: FreeIpFinder<SequentialIpSelector<Ipv4>>,
}

impl Ipv4Handler {
    /// The candidates still to come.
    pub closed spec fn remaining(&self) -> Seq<Ipv4> {
        self.finder.remaining()
    }

    /// Whether the candidates have run out.
    pub closed spec fn exhausted(&self) -> bool {
        self.finder.exhausted()
    }

    pub closed spec fn batch_size(&self) -> usize {
        self.finder.batch_size()
    }

    pub closed spec fn sender(&self) -> MacAddr {
        self.finder.sender()
    }

    pub closed spec fn n_retries(&self) -> usize {
        self.finder.n_retries()
    }

    pub closed spec fn wf(&self) -> bool {
        self.finder.wf()
    }

    /// The search wired with `config`, probing from `mac_addr`.
    pub fn new(config: &Ipv4HandlerConfig, mac_addr: MacAddr) -> (r: Self)
        requires
            config.batch_size > 0,
        ensures
            r.wf(),
            r.remaining() == candidates(),
            !r.exhausted(),
            r.batch_size() == config.batch_size,
            r.sender() == mac_addr,
            r.n_retries() == config.scan.n_retries,
    {
        let selector = SequentialIpSelector::new(LocalLinkNet::ipv4());
        let ip_batcher = IpBatcher::new(config.batch_size, selector);
        let finder = FreeIpFinder::new(ip_batcher, mac_addr, config.scan.n_retries);
        Ipv4Handler { finder }
    }

    /// The probing of the next batch of candidates; `None` once they have
    /// run out, and from then on.
    pub fn next_batch(&mut self) -> (r: Option<BatchProbe>)
        requires
            old(self).wf(),
        ensures
            final(self).wf(),
            final(self).batch_size() == old(self).batch_size(),
            final(self).sender() == old(self).sender(),
            final(self).n_retries() == old(self).n_retries(),
            old(self).exhausted() ==> r is None && final(self).exhausted(),
            !old(self).exhausted() ==> {
                let n = batch_len(old(self).batch_size(), old(self).remaining().len() as int);
                &&& r matches Some(b) && b.wf() && b.targets() == old(self).remaining().take(n)
                    && forall|i: int|
                    0 <= i < n ==> {
                        let p = #[trigger] b.probes()[i];
                        &&& p.sender() == old(self).sender()
                        &&& p.n_retries() == old(self).n_retries()
                        &&& p.history().len() == 0
                        &&& p.result() == (if old(self).n_retries() == 0 {
                            Some(timed_out())
                        } else {
                            None
                        })
                    }
                &&& final(self).remaining() == old(self).remaining().skip(n)
                &&& final(self).exhausted() == (n == 0)
            },
    {
        self.finder.find_next()
    }
}

} // verus!
