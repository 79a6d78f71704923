//! Producers of candidate addresses.
use vstd::prelude::*;

verus! {

/// A source of candidate addresses, handed out one at a time, in order.
pub trait SelectIp<Ip>: Sized {
    /// The addresses still to come, in the order in which they come.
    spec fn remaining(&self) -> Seq<Ip>;

    spec fn wf(&self) -> bool;

    /// Hands out the next address; `None` once none is left, for good.
    fn select(&mut self) -> (r: Option<Ip>)
        requires
            old(self).wf(),
        ensures
            final(self).wf(),
            old(self).remaining().len() == 0 ==> r is None && final(self).remaining().len() == 0,
            old(self).remaining().len() > 0 ==> r == Some(old(self).remaining()[0])
                && final(self).remaining() == old(self).remaining().drop_first(),
    ;
}

/// Hands out the addresses of a list from first to last.
pub struct SequentialIpSelector<Ip> {
    ip_range: Vec<Ip>,
    index: usize,
}

impl<Ip: Copy> SequentialIpSelector<Ip> {
    /// A selector over `ips`, in their order.
    pub fn new(ips: Vec<Ip>) -> (r: Self)
        ensures
            r.wf(),
            r.remaining() == ips@,
    {
        let r = SequentialIpSelector { ip_range: ips, index: 0 };
        assert(r.ip_range@.subrange(0, r.ip_range@.len() as int) =~= ips@);
        r
    }
}

impl<Ip: Copy> SelectIp<Ip> for SequentialIpSelector<Ip> {
    closed spec fn remaining(&self) -> Seq<Ip> {
        self.ip_range@.subrange(self.index as int, self.ip_range@.len() as int)
    }

    closed spec fn wf(&self) -> bool {
        self.index <= self.ip_range@.len()
    }

    fn select(&mut self) -> (r: Option<Ip>) {
        let index = self.index;
        if index < self.ip_range.len() {
            self.index = index + 1;
            proof {
                assert(self.remaining() =~= old(self).remaining().drop_first());
            }
            Some(self.ip_range[index])
        } else {
            None
        }
    }
}

} // verus!
