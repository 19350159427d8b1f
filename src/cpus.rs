use vstd::prelude::*;

verus! {

/// Relies on num_cpus::get: the number of logical cores available to the
/// process, which its documentation promises is always at least one.
#[verifier::external_body]
fn detect_cpus() -> (r: usize)
    ensures
        r >= 1,
{
    num_cpus::get()
}

/// A write-once record of the host's core count: empty until the first
/// detection, then fixed for good.
pub struct CpuCountCache {
    loaded: bool,
    cpus: usize,
}

impl CpuCountCache {
    /// The recorded core count, or `None` before any detection.
    pub closed spec fn view(&self) -> Option<nat> {
        if self.loaded {
            Some(self.cpus as nat)
        } else {
            None
        }
    }

    /// A recorded count is never zero.
    pub closed spec fn wf(&self) -> bool {
        self.loaded ==> self.cpus >= 1
    }

    /// A cache on which no detection has happened yet.
    pub fn new() -> (r: Self)
        ensures
            r.wf(),
            r@ is None,
    {
        CpuCountCache { loaded: false, cpus: 1 }
    }

    /// Whether a core count has been recorded.
    pub fn is_loaded(&self) -> (r: bool)
        ensures
            r == (self@ is Some),
    {
        self.loaded
    }

    /// Records `detected` unless a count is recorded already, and returns the
    /// count that is recorded afterwards.
    pub fn settle(&mut self, detected: usize) -> (r: usize)
        requires
            old(self).wf(),
            detected >= 1,
        ensures
            final(self).wf(),
            final(self)@ == settled(old(self)@, detected as nat),
            final(self)@ == Some(r as nat),
    {
        if !self.loaded {
            self.cpus = detected;
            self.loaded = true;
        }
        self.cpus
    }

    /// The recorded core count; on first use the host's cores are detected
    /// and recorded.
    pub fn load(&mut self) -> (r: usize)
        requires
            old(self).wf(),
        ensures
            final(self).wf(),
            final(self)@ == Some(r as nat),
            r >= 1,
            old(self)@ is Some ==> final(self)@ == old(self)@,
    {
        if self.is_loaded() {
            self.cpus
        } else {
            let detected = detect_cpus();
            self.settle(detected)
        }
    }
}

/// The cache's contents after a detection that found `detected` cores: the
/// first recorded count wins.
pub open spec fn settled(cache: Option<nat>, detected: nat) -> Option<nat> {
    match cache {
        Some(n) => Some(n),
        None => Some(detected),
    }
}

/// Once a count is recorded, later detections leave it as it is, whatever
/// they find: settling twice gives what settling once gave.
pub proof fn lemma_settle_is_idempotent(cache: Option<nat>, first: nat, second: nat)
    ensures
        settled(settled(cache, first), second) == settled(cache, first),
{
}

} // verus!
