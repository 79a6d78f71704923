//! Grouping of candidate addresses into batches of a fixed size.
use vstd::prelude::*;
use crate::selector::SelectIp;
use std::marker::PhantomData;

verus! {

/// Collects the addresses of a selector into batches of `size`, the last of
/// which may be short. Once the selector has run dry, one empty batch marks
/// the end, and after it there is no batch at all.
pub struct IpBatcher<Ip, S> {
    size: usize,
    selector: S,
    exhausted: bool,
    item: PhantomData<Ip>,
}

/// The number of addresses in the next batch.
pub open spec fn batch_len(size: usize, remaining: int) -> int {
    if remaining < size {
        remaining
    } else {
        size as int
    }
}

impl<Ip: Copy, S: SelectIp<Ip>> IpBatcher<Ip, S> {
    /// The addresses still to come.
    pub closed spec fn remaining(&self) -> Seq<Ip> {
        self.selector.remaining()
    }

    /// Whether the empty batch that marks the end was handed out.
    pub closed spec fn exhausted(&self) -> bool {
        self.exhausted
    }

    pub closed spec fn size(&self) -> usize {
        self.size
    }

    pub closed spec fn wf(&self) -> bool {
        &&& self.selector.wf()
        &&& self.size > 0
        &&& self.exhausted ==> self.selector.remaining().len() == 0
    }

    /// A batcher of batches of `size` over `selector`.
    pub fn new(size: usize, selector: S) -> (r: Self)
        requires
            size > 0,
            selector.wf(),
        ensures
            r.wf(),
            r.remaining() == selector.remaining(),
            r.size() == size,
            !r.exhausted(),
    {
        IpBatcher { size, selector, exhausted: false, item: PhantomData }
    }

    /// The next batch: the next `size` addresses, or what is left of them.
    /// An empty batch comes once, when none is left; then `None`, for good.
    pub fn next_batch(&mut self) -> (r: Option<Vec<Ip>>)
        requires
            old(self).wf(),
        ensures
            final(self).wf(),
            final(self).size() == old(self).size(),
            old(self).exhausted() ==> r is None && final(self).exhausted()
                && final(self).remaining() == old(self).remaining(),
            !old(self).exhausted() ==> {
                let n = batch_len(old(self).size(), old(self).remaining().len() as int);
                &&& r matches Some(b) && b@ == old(self).remaining().take(n)
                &&& final(self).remaining() == old(self).remaining().skip(n)
                &&& final(self).exhausted() == (n == 0)
            },
    {
        if self.exhausted {
            return None;
        }
        let mut batch: Vec<Ip> = Vec::new();
        let ghost start = self.selector.remaining();
        let mut i: usize = 0;
        let mut done = false;
        while i < self.size && !done
            invariant
                self.selector.wf(),
                self.size == old(self).size,
                self.size > 0,
                !self.exhausted,
                i <= self.size,
                batch@.len() == i,
                i <= start.len(),
                batch@ == start.take(i as int),
                self.selector.remaining() == start.skip(i as int),
                done ==> i == start.len(),
            decreases self.size - i + (if done { 0int } else { 1int }),
        {
            match self.selector.select() {
                Some(ip) => {
                    batch.push(ip);
                    i = i + 1;
                    proof {
                        assert(batch@ =~= start.take(i as int));
                        assert(self.selector.remaining() =~= start.skip(i as int));
                    }
                },
                None => {
                    done = true;
                },
            }
        }
        if batch.len() == 0 {
            self.exhausted = true;
        }
        Some(batch)
    }
}

} // verus!
