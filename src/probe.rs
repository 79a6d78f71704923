//! The retrying probe driver: each address is probed up to a number of times,
//! one attempt after the other, until a host replies or every attempt has
//! timed out.
use vstd::prelude::*;
use crate::client::{ArpProbeInput, Error, ProbeStatus, probe_input, probe_request, status_of};
use crate::codec::ArpPacket;
use crate::codec::{ArpRequestInput, Ipv4, MacAddr};

verus! {

/// The classification of a probed address.
#[derive(Clone, Copy, Debug, PartialEq, Eq)]
pub struct Outcome<Ip> {
    pub ip: Ip,
    pub status: ProbeStatus,
}

impl<Ip> Outcome<Ip> {
    /// The address probed.
    pub fn target_ip(&self) -> (r: &Ip)
        ensures
            *r == self.ip,
    {
        &self.ip
    }

    /// Whether no reply came for the address.
    pub fn is_free(&self) -> (r: bool)
        ensures
            r == (self.status == ProbeStatus::Free),
    {
        match self.status {
            ProbeStatus::Free => true,
            ProbeStatus::Occupied => false,
        }
    }
}

/// What the driver of one address asks for next.
#[derive(Clone, Copy, Debug, PartialEq, Eq)]
pub enum ProbeStep {
    /// Send this request and report its result.
    Send(ArpRequestInput),
    /// The address is classified.
    Done(Outcome<Ipv4>),
    /// An attempt failed otherwise than by a timeout.
    Failed(Error),
}

/// The result of an attempt that timed out.
pub open spec fn timed_out() -> Result<ProbeStatus, Error> {
    Ok(ProbeStatus::Free)
}

/// The result of an attempt that had a reply.
pub open spec fn replied() -> Result<ProbeStatus, Error> {
    Ok(ProbeStatus::Occupied)
}

/// Whether every attempt in `h` found the address free, that is timed out.
pub open spec fn all_timed_out(h: Seq<Result<ProbeStatus, Error>>) -> bool {
    forall|i: int| 0 <= i < h.len() ==> #[trigger] h[i] == timed_out()
}

/// The probing of one address, up to `n_retries` attempts.
#[derive(Clone, Copy)]
pub struct RetryingProbe {
    sender_mac: MacAddr,
    target_ip: Ipv4,
    n_retries: usize,
    attempts: usize,
    result: Option<Result<ProbeStatus, Error>>,
    history: Ghost<Seq<Result<ProbeStatus, Error>>>,
}

impl RetryingProbe {
    pub closed spec fn target(&self) -> Ipv4 {
        self.target_ip
    }

    pub closed spec fn sender(&self) -> MacAddr {
        self.sender_mac
    }

    pub closed spec fn n_retries(&self) -> usize {
        self.n_retries
    }

    /// The results of the attempts made so far, in order.
    pub closed spec fn history(&self) -> Seq<Result<ProbeStatus, Error>> {
        self.history@
    }

    /// The classification, once there is one.
    pub closed spec fn result(&self) -> Option<Result<ProbeStatus, Error>> {
        self.result
    }

    pub closed spec fn wf(&self) -> bool {
        let h = self.history@;
        &&& self.attempts == h.len()
        &&& h.len() <= self.n_retries
        &&& match self.result {
            None => h.len() < self.n_retries && all_timed_out(h),
            Some(Ok(ProbeStatus::Free)) => h.len() == self.n_retries && all_timed_out(h),
            Some(r) => h.len() > 0 && h.last() == r && all_timed_out(h.drop_last()),
        }
    }

    /// The probing of `target_ip` from `sender_mac`, with `n_retries`
    /// attempts at most; with none, the address counts as free at once.
    pub fn new(sender_mac: MacAddr, target_ip: Ipv4, n_retries: usize) -> (r: Self)
        ensures
            r.wf(),
            r.target() == target_ip,
            r.sender() == sender_mac,
            r.n_retries() == n_retries,
            r.history() == Seq::<Result<ProbeStatus, Error>>::empty(),
            r.result() == (if n_retries == 0 {
                Some(timed_out())
            } else {
                None
            }),
    {
        RetryingProbe {
            sender_mac,
            target_ip,
            n_retries,
            attempts: 0,
            result: if n_retries == 0 {
                Some(Ok(ProbeStatus::Free))
            } else {
                None
            },
            history: Ghost(Seq::empty()),
        }
    }

    /// Whether the address is classified, or its probing failed.
    pub fn is_finished(&self) -> (r: bool)
        ensures
            r == self.result() is Some,
    {
        self.result.is_some()
    }

    /// What comes next: another probe of the address, or its end.
    pub fn step(&self) -> (r: ProbeStep)
        requires
            self.wf(),
        ensures
            match self.result() {
                None => r == ProbeStep::Send(
                    probe_request(ArpProbeInput { sender_mac: self.sender(), target_ip: self.target() }),
                ),
                Some(Ok(s)) => r == ProbeStep::Done(Outcome { ip: self.target(), status: s }),
                Some(Err(e)) => r == ProbeStep::Failed(e),
            },
    {
        match self.result {
            None => ProbeStep::Send(
                probe_input(&ArpProbeInput { sender_mac: self.sender_mac, target_ip: self.target_ip }),
            ),
            Some(Ok(s)) => ProbeStep::Done(Outcome { ip: self.target_ip, status: s }),
            Some(Err(e)) => ProbeStep::Failed(e),
        }
    }

    /// Records the result of an attempt. A reply ends the probing with the
    /// address in use; an error other than a timeout ends it with that error;
    /// a timeout leads to the next attempt, or, after the last one, to the
    /// address being free.
    pub fn record(&mut self, attempt: Result<ProbeStatus, Error>)
        requires
            old(self).wf(),
            old(self).result() is None,
        ensures
            final(self).wf(),
            final(self).target() == old(self).target(),
            final(self).sender() == old(self).sender(),
            final(self).n_retries() == old(self).n_retries(),
            final(self).history() == old(self).history().push(attempt),
            final(self).result() == match attempt {
                Ok(ProbeStatus::Free) => if old(self).history().len() + 1 == old(self).n_retries() {
                    Some(timed_out())
                } else {
                    None
                },
                _ => Some(attempt),
            },
    {
        let ghost h0 = self.history@;
        self.attempts = self.attempts + 1;
        self.history = Ghost(self.history@.push(attempt));
        proof {
            assert(self.history@.drop_last() =~= h0);
        }
        match attempt {
            Ok(ProbeStatus::Free) => {
                if self.attempts == self.n_retries {
                    self.result = Some(Ok(ProbeStatus::Free));
                }
            },
            _ => {
                self.result = Some(attempt);
            },
        }
    }
}

/// An attempt reads as a timeout exactly when its request timed out, and as
/// a reply exactly when its request had a reply.
pub proof fn lemma_attempt_results(r: Result<ArpPacket, Error>)
    ensures
        status_of(r) == timed_out() <==> r == Err::<ArpPacket, Error>(Error::ResponseTimeout),
        status_of(r) == replied() <==> r is Ok,
{
}

/// An address found free was probed exactly `n_retries` times, and every
/// attempt timed out.
pub proof fn lemma_free_after_all_timeouts(p: RetryingProbe)
    requires
        p.wf(),
        p.result() == Some(timed_out()),
    ensures
        p.history().len() == p.n_retries(),
        all_timed_out(p.history()),
{
}

/// An address found in use had a reply to one of its attempts.
pub proof fn lemma_occupied_after_reply(p: RetryingProbe)
    requires
        p.wf(),
        p.result() == Some(replied()),
    ensures
        exists|i: int|
            0 <= i < p.history().len() && #[trigger] p.history()[i] == replied(),
{
    assert(p.history()[p.history().len() - 1] == replied());
}

/// The error of the first probe of `s` that failed, if one did.
pub open spec fn first_failure(s: Seq<RetryingProbe>) -> Option<Error>
    decreases s.len(),
{
    if s.len() == 0 {
        None
    } else {
        match first_failure(s.drop_last()) {
            Some(e) => Some(e),
            None => match s.last().result() {
                Some(Err(e)) => Some(e),
                _ => None,
            },
        }
    }
}

/// The addresses of the probes of `s` that found them free, in order.
pub open spec fn free_targets(s: Seq<RetryingProbe>) -> Seq<Ipv4>
    decreases s.len(),
{
    if s.len() == 0 {
        Seq::empty()
    } else if s.last().result() == Some(timed_out()) {
        free_targets(s.drop_last()).push(s.last().target())
    } else {
        free_targets(s.drop_last())
    }
}

/// The probing of a batch of addresses. Each round sends one request for
/// every address still open, so that the addresses are probed side by side
/// and the attempts for one address follow each other.
pub struct BatchProbe {
    probes: Vec<RetryingProbe>,
}

impl BatchProbe {
    pub closed spec fn probes(&self) -> Seq<RetryingProbe> {
        self.probes@
    }

    /// The addresses of the batch, in order.
    pub open spec fn targets(&self) -> Seq<Ipv4> {
        self.probes().map_values(|p: RetryingProbe| p.target())
    }

    pub open spec fn wf(&self) -> bool {
        forall|i: int| 0 <= i < self.probes().len() ==> #[trigger] self.probes()[i].wf()
    }

    /// Whether every address of the batch is classified or failed.
    pub open spec fn finished(&self) -> bool {
        forall|i: int| 0 <= i < self.probes().len() ==> #[trigger] self.probes()[i].result() is Some
    }

    /// The probing of each address of `batch` from `sender_mac`, with
    /// `n_retries` attempts at most.
    pub fn new(sender_mac: MacAddr, batch: &Vec<Ipv4>, n_retries: usize) -> (r: Self)
        ensures
            r.wf(),
            r.targets() == batch@,
            r.probes().len() == batch@.len(),
            forall|i: int|
                0 <= i < batch@.len() ==> {
                    let p = #[trigger] r.probes()[i];
                    &&& p.sender() == sender_mac
                    &&& p.n_retries() == n_retries
                    &&& p.history().len() == 0
                    &&& p.result() == (if n_retries == 0 {
                        Some(timed_out())
                    } else {
                        None
                    })
                },
    {
        let mut probes: Vec<RetryingProbe> = Vec::new();
        let mut i: usize = 0;
        while i < batch.len()
            invariant
                i <= batch@.len(),
                probes@.len() == i,
                forall|j: int|
                    0 <= j < i ==> {
                        let p = #[trigger] probes@[j];
                        &&& p.wf()
                        &&& p.target() == batch@[j]
                        &&& p.sender() == sender_mac
                        &&& p.n_retries() == n_retries
                        &&& p.history().len() == 0
                        &&& p.result() == (if n_retries == 0 {
                            Some(timed_out())
                        } else {
                            None
                        })
                    },
            decreases batch@.len() - i,
        {
            probes.push(RetryingProbe::new(sender_mac, batch[i], n_retries));
            i = i + 1;
        }
        let r = BatchProbe { probes };
        assert(r.targets() =~= batch@);
        r
    }

    /// The number of addresses in the batch.
    pub fn len(&self) -> (r: usize)
        ensures
            r == self.probes().len(),
    {
        self.probes.len()
    }

    /// The requests of the next round: one for each address still open,
    /// with its index in the batch, in the order of the batch.
    pub fn pending(&self) -> (r: Vec<(usize, ArpRequestInput)>)
        requires
            self.wf(),
        ensures
            forall|k: int|
                0 <= k < r@.len() ==> {
                    let (i, req) = #[trigger] r@[k];
                    &&& i < self.probes().len()
                    &&& self.probes()[i as int].result() is None
                    &&& req == probe_request(
                        ArpProbeInput {
                            sender_mac: self.probes()[i as int].sender(),
                            target_ip: self.probes()[i as int].target(),
                        },
                    )
                },
            forall|k1: int, k2: int| 0 <= k1 < k2 < r@.len() ==> r@[k1].0 < r@[k2].0,
            forall|i: int|
                0 <= i < self.probes().len() && #[trigger] self.probes()[i].result() is None
                    ==> exists|k: int| 0 <= k < r@.len() && r@[k].0 == i,
            r@.len() == 0 <==> self.finished(),
    {
        let mut r: Vec<(usize, ArpRequestInput)> = Vec::new();
        let mut i: usize = 0;
        while i < self.probes.len()
            invariant
                self.wf(),
                i <= self.probes().len(),
                forall|k: int|
                    0 <= k < r@.len() ==> {
                        let (j, req) = #[trigger] r@[k];
                        &&& j < i
                        &&& self.probes()[j as int].result() is None
                        &&& req == probe_request(
                            ArpProbeInput {
                                sender_mac: self.probes()[j as int].sender(),
                                target_ip: self.probes()[j as int].target(),
                            },
                        )
                    },
                forall|k1: int, k2: int| 0 <= k1 < k2 < r@.len() ==> r@[k1].0 < r@[k2].0,
                forall|j: int|
                    0 <= j < i && #[trigger] self.probes()[j].result() is None ==> exists|k: int|
                        0 <= k < r@.len() && r@[k].0 == j,
            decreases self.probes().len() - i,
        {
            if let ProbeStep::Send(req) = self.probes[i].step() {
                let ghost r0 = r@;
                r.push((i, req));
                proof {
                    assert forall|j: int|
                        0 <= j < i && #[trigger] self.probes()[j].result() is None implies exists|
                        k: int,
                    | 0 <= k < r@.len() && r@[k].0 == j by {
                        let k0 = choose|k: int| 0 <= k < r0.len() && r0[k].0 == j;
                        assert(r@[k0] == r0[k0]);
                    }
                    assert(r@[r@.len() - 1].0 == i);
                }
            }
            i = i + 1;
        }
        proof {
            if r@.len() == 0 {
                assert forall|j: int| 0 <= j < self.probes().len() implies #[trigger] self.probes()[j].result() is Some by {
                    if self.probes()[j].result() is None {
                        let k = choose|k: int| 0 <= k < r@.len() && r@[k].0 == j;
                    }
                }
            } else {
                let (j, req) = r@[0];
                assert(self.probes()[j as int].result() is None);
            }
        }
        r
    }

    /// Records the result of the attempt for the address at `index`.
    pub fn record(&mut self, index: usize, attempt: Result<ProbeStatus, Error>)
        requires
            old(self).wf(),
            index < old(self).probes().len(),
            old(self).probes()[index as int].result() is None,
        ensures
            final(self).wf(),
            final(self).probes().len() == old(self).probes().len(),
            final(self).targets() == old(self).targets(),
            forall|i: int|
                0 <= i < old(self).probes().len() && i != index ==> #[trigger] final(self).probes()[i]
                    == old(self).probes()[i],
            ({
                let before = old(self).probes()[index as int];
                let after = final(self).probes()[index as int];
                &&& after.target() == before.target()
                &&& after.sender() == before.sender()
                &&& after.n_retries() == before.n_retries()
                &&& after.history() == before.history().push(attempt)
                &&& after.result() == match attempt {
                    Ok(ProbeStatus::Free) => if before.history().len() + 1 == before.n_retries() {
                        Some(timed_out())
                    } else {
                        None
                    },
                    _ => Some(attempt),
                }
            }),
    {
        let mut p = self.probes[index];
        p.record(attempt);
        self.probes.set(index, p);
        proof {
            assert(self.targets() =~= old(self).targets());
        }
    }

    /// Whether every address of the batch is classified or failed.
    pub fn is_finished(&self) -> (r: bool)
        ensures
            r == self.finished(),
    {
        let mut i: usize = 0;
        while i < self.probes.len()
            invariant
                i <= self.probes().len(),
                forall|j: int| 0 <= j < i ==> #[trigger] self.probes()[j].result() is Some,
            decreases self.probes().len() - i,
        {
            if !self.probes[i].is_finished() {
                return false;
            }
            i = i + 1;
        }
        true
    }

    /// The addresses of the batch found free, in the order of the batch;
    /// or the error of the first address whose probing failed.
    pub fn free_ips(&self) -> (r: Result<Vec<Ipv4>, Error>)
        requires
            self.wf(),
        ensures
            match first_failure(self.probes()) {
                Some(e) => r == Err::<Vec<Ipv4>, Error>(e),
                None => r matches Ok(v) && v@ == free_targets(self.probes()),
            },
    {
        let mut v: Vec<Ipv4> = Vec::new();
        let mut i: usize = 0;
        while i < self.probes.len()
            invariant
                self.wf(),
                i <= self.probes().len(),
                first_failure(self.probes().take(i as int)) is None,
                v@ == free_targets(self.probes().take(i as int)),
            decreases self.probes().len() - i,
        {
            let p = self.probes[i];
            proof {
                assert(self.probes().take(i + 1).drop_last() =~= self.probes().take(i as int));
            }
            match p.step() {
                ProbeStep::Failed(e) => {
                    proof {
                        lemma_first_failure_prefix(self.probes(), i as int + 1);
                    }
                    return Err(e);
                },
                ProbeStep::Done(o) => {
                    if o.is_free() {
                        v.push(o.ip);
                    }
                },
                ProbeStep::Send(_) => {},
            }
            i = i + 1;
        }
        assert(self.probes().take(i as int) =~= self.probes());
        Ok(v)
    }
}

proof fn lemma_first_failure_prefix(s: Seq<RetryingProbe>, n: int)
    requires
        0 <= n <= s.len(),
        first_failure(s.take(n)) is Some,
    ensures
        first_failure(s) == first_failure(s.take(n)),
    decreases s.len() - n,
{
    if n < s.len() {
        assert(s.take(n + 1).drop_last() =~= s.take(n));
        lemma_first_failure_prefix(s, n + 1);
    } else {
        assert(s.take(n) =~= s);
    }
}

/// Whether a probe of `s` found `ip` free.
pub open spec fn found_free(s: Seq<RetryingProbe>, ip: Ipv4) -> bool {
    exists|i: int| 0 <= i < s.len() && s[i].result() == Some(timed_out()) && s[i].target() == ip
}

proof fn lemma_free_targets_found_free(s: Seq<RetryingProbe>)
    ensures
        forall|k: int|
            0 <= k < free_targets(s).len() ==> found_free(s, #[trigger] free_targets(s)[k]),
    decreases s.len(),
{
    if s.len() > 0 {
        let t = s.drop_last();
        lemma_free_targets_found_free(t);
        assert forall|k: int| 0 <= k < free_targets(s).len() implies found_free(
            s,
            #[trigger] free_targets(s)[k],
        ) by {
            if k < free_targets(t).len() {
                assert(free_targets(s)[k] == free_targets(t)[k]);
                assert(found_free(t, free_targets(t)[k]));
                let i = choose|i: int|
                    0 <= i < t.len() && t[i].result() == Some(timed_out()) && t[i].target()
                        == free_targets(t)[k];
                assert(s[i] == t[i]);
            } else {
                assert(s[s.len() - 1] == s.last());
            }
        }
    }
}

/// Every address that a batch reports free is an address of the batch, and
/// its probing found it free.
pub proof fn lemma_free_ips_in_batch(b: BatchProbe)
    ensures
        forall|k: int|
            0 <= k < free_targets(b.probes()).len() ==> b.targets().contains(
                #[trigger] free_targets(b.probes())[k],
            ) && found_free(b.probes(), free_targets(b.probes())[k]),
{
    lemma_free_targets_found_free(b.probes());
    assert forall|k: int| 0 <= k < free_targets(b.probes()).len() implies b.targets().contains(
        #[trigger] free_targets(b.probes())[k],
    ) && found_free(b.probes(), free_targets(b.probes())[k]) by {
        assert(found_free(b.probes(), free_targets(b.probes())[k]));
        let i = choose|i: int|
            0 <= i < b.probes().len() && b.probes()[i].result() == Some(timed_out())
                && b.probes()[i].target() == free_targets(b.probes())[k];
        assert(b.targets()[i] == free_targets(b.probes())[k]);
    }
}

} // verus!
