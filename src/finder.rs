//! The free-address finder: takes the next batch of candidates and sets up
//! its probing.
use vstd::prelude::*;
use crate::batcher::{IpBatcher, batch_len};
use crate::codec::{Ipv4, MacAddr};
use crate::probe::{BatchProbe, timed_out};
use crate::selector::SelectIp;

verus! {

/// Feeds the batches of a batcher to the probe driver.
pub struct FreeIpFinder<S> {
    ip_batcher: IpBatcher<Ipv4, S>,
    sender_mac: MacAddr,
    n_retries: usize,
}

impl<S: SelectIp<Ipv4>> FreeIpFinder<S> {
    /// The candidates still to come.
    pub closed spec fn remaining(&self) -> Seq<Ipv4> {
        self.ip_batcher.remaining()
    }

    /// Whether the batches have run out.
    pub closed spec fn exhausted(&self) -> bool {
        self.ip_batcher.exhausted()
    }

    pub closed spec fn batch_size(&self) -> usize {
        self.ip_batcher.size()
    }

    pub closed spec fn sender(&self) -> MacAddr {
        self.sender_mac
    }

    pub closed spec fn n_retries(&self) -> usize {
        self.n_retries
    }

    pub closed spec fn wf(&self) -> bool {
        self.ip_batcher.wf()
    }

    /// A finder over the batches of `ip_batcher`, probing from `sender_mac`
    /// with `n_retries` attempts at most for each address.
    pub fn new(ip_batcher: IpBatcher<Ipv4, S>, sender_mac: MacAddr, n_retries: usize) -> (r: Self)
        requires
            ip_batcher.wf(),
        ensures
            r.wf(),
            r.remaining() == ip_batcher.remaining(),
            r.exhausted() == ip_batcher.exhausted(),
            r.batch_size() == ip_batcher.size(),
            r.sender() == sender_mac,
            r.n_retries() == n_retries,
    {
        FreeIpFinder { ip_batcher, sender_mac, n_retries }
    }

    /// The probing of the next batch, none of it started; `None` once the
    /// batches have run out, and from then on. The batch that marks the end
    /// is empty, and so is what it finds free.
    pub fn find_next(&mut self) -> (r: Option<BatchProbe>)
        requires
            old(self).wf(),
        ensures
            final(self).wf(),
            final(self).batch_size() == old(self).batch_size(),
            final(self).sender() == old(self).sender(),
            final(self).n_retries() == old(self).n_retries(),
            old(self).exhausted() ==> r is None && final(self).exhausted()
                && final(self).remaining() == old(self).remaining(),
            !old(self).exhausted() ==> {
                let n = batch_len(old(self).batch_size(), old(self).remaining().len() as int);
                &&& r matches Some(b) && b.wf() && b.targets() == old(self).remaining().take(n)
                    && forall|i: int|
                    0 <= i < n ==> {
                        let p = #[trigger] b.probes()[i];
                        &&& p.sender() == old(self).sender()
                        &&& p.n_retries() == old(self).n_retries()
                        &&& p.history().len() == 0
                        &&& p.result() == (if old(self).n_retries() == 0 {
                            Some(timed_out())
                        } else {
                            None
                        })
                    }
                &&& final(self).remaining() == old(self).remaining().skip(n)
                &&& final(self).exhausted() == (n == 0)
            },
    {
        match self.ip_batcher.next_batch() {
            Some(batch) => Some(BatchProbe::new(self.sender_mac, &batch, self.n_retries)),
            None => None,
        }
    }
}

} // verus!
