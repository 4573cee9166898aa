//! Which hosts have a worker of their own.
use vstd::prelude::*;
use crate::text::str_eq;

verus! {

/// The hosts that have a worker. A worker is started when its host first
/// comes up and is never stopped.
pub struct Workers {
    hosts: Vec<String>,
}

impl View for Workers {
    type V = Seq<Seq<char>>;

    /// The hosts, in the order in which their workers were started.
    closed spec fn view(&self) -> Seq<Seq<char>> {
        Seq::new(self.hosts@.len(), |i: int| self.hosts@[i]@)
    }
}

impl Workers {
    /// Whether every host has at most one worker.
    pub open spec fn wf(&self) -> bool {
        forall|i: int, j: int| 0 <= i < j < self@.len() ==> self@[i] != self@[j]
    }

    /// No workers.
    pub fn new() -> (workers: Workers)
        ensures
            workers.wf(),
            workers@ == Seq::<Seq<char>>::empty(),
    {
        let workers = Workers { hosts: Vec::new() };
        workers
    }

    /// How many workers there are.
    pub fn len(&self) -> (count: usize)
        ensures
            count == self@.len(),
    {
        self.hosts.len()
    }

    /// Whether `host` has a worker.
    pub fn contains(&self, host: &str) -> (known: bool)
        ensures
            known == self@.contains(host@),
    {
        let mut i: usize = 0;
        while i < self.hosts.len()
            invariant
                i <= self.hosts.len(),
                forall|k: int| 0 <= k < i ==> self@[k] != host@,
            decreases self.hosts.len() - i,
        {
            if str_eq(self.hosts[i].as_str(), host) {
                assert(self@[i as int] == host@);
                return true;
            }
            i += 1;
        }
        false
    }

    /// Makes sure that `host` has a worker, and says whether one has to be
    /// started for it.
    pub fn ensure(&mut self, host: &str) -> (started: bool)
        requires
            old(self).wf(),
        ensures
            final(self).wf(),
            started == !old(self)@.contains(host@),
            final(self)@ == if started {
                old(self)@.push(host@)
            } else {
                old(self)@
            },
    {
        if self.contains(host) {
            false
        } else {
            self.hosts.push(String::from_str(host));
            assert(self@ =~= old(self)@.push(host@));
            true
        }
    }
}

} // verus!
