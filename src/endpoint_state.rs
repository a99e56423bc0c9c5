use vstd::prelude::*;

verus! {

/// Single-slot, latest-value status shared between the one writer (the reconnect
/// loop) and any number of readers. `None` until the first publication; each
/// publication overwrites the previous one; once closed, nothing more is published.
pub struct EndpointState<T> {
    pub latest: Option<T>,
    pub publications: u64,
    pub closed: bool,
}

/// What a reader waiting for a status should do.
pub enum WaitOutcome {
    /// A status is there: take the latest.
    Ready,
    /// Nothing published yet: wait for a change.
    Pending,
    /// The writer finished without ever publishing.
    Cancelled,
}

impl<T> EndpointState<T> {
    /// The state after publishing `v`.
    pub open spec fn spec_publish(self, v: T) -> Self {
        if self.closed {
            self
        } else {
            EndpointState {
                latest: Some(v),
                publications: if self.publications < u64::MAX { (self.publications + 1) as u64 } else { self.publications },
                closed: false,
            }
        }
    }

    /// The state after publishing each of `vals` in order.
    pub open spec fn spec_publish_all(self, vals: Seq<T>) -> Self
        decreases vals.len(),
    {
        if vals.len() == 0 {
            self
        } else {
            self.spec_publish_all(vals.drop_last()).spec_publish(vals.last())
        }
    }

    /// The state after the writer closes the slot.
    pub open spec fn spec_close(self) -> Self {
        EndpointState { closed: true, ..self }
    }

    pub fn new() -> (r: Self)
        ensures
            r.latest is None,
            r.publications == 0,
            !r.closed,
    {
        EndpointState { latest: None, publications: 0, closed: false }
    }

    /// Overwrites the status with `v`, unless the slot is closed. Returns whether
    /// `v` was published.
    pub fn publish(&mut self, v: T) -> (r: bool)
        ensures
            r == !old(self).closed,
            *final(self) == old(self).spec_publish(v),
    {
        if self.closed {
            return false;
        }
        self.latest = Some(v);
        if self.publications < u64::MAX {
            self.publications = self.publications + 1;
        }
        true
    }

    /// Marks the writer as finished.
    pub fn close(&mut self)
        ensures
            *final(self) == old(self).spec_close(),
    {
        self.closed = true;
    }

    /// The latest published status.
    pub fn latest(&self) -> (r: Option<&T>)
        ensures
            r == match self.latest {
                Some(v) => Some(&v),
                None => None::<&T>,
            },
    {
        match &self.latest {
            Some(v) => Some(v),
            None => None,
        }
    }

    /// Whether a reader can take a status, must wait, or will never get one.
    pub fn wait_outcome(&self) -> (r: WaitOutcome)
        ensures
            self.latest is Some ==> r is Ready,
            self.latest is None && !self.closed ==> r is Pending,
            self.latest is None && self.closed ==> r is Cancelled,
    {
        if self.latest.is_some() {
            WaitOutcome::Ready
        } else if self.closed {
            WaitOutcome::Cancelled
        } else {
            WaitOutcome::Pending
        }
    }
}

/// After any number of publications into an open slot, a reader sees exactly the
/// last value published, whether or not it looked in between.
pub proof fn lemma_reader_sees_latest<T>(s: EndpointState<T>, vals: Seq<T>)
    requires
        !s.closed,
        vals.len() > 0,
    ensures
        s.spec_publish_all(vals).latest == Some(vals.last()),
        !s.spec_publish_all(vals).closed,
    decreases vals.len(),
{
    let prev = s.spec_publish_all(vals.drop_last());
    if vals.len() > 1 {
        lemma_reader_sees_latest(s, vals.drop_last());
    } else {
        assert(vals.drop_last().len() == 0);
        assert(prev == s);
    }
    assert(!prev.closed);
    assert(s.spec_publish_all(vals) == prev.spec_publish(vals.last()));
}

/// Once the slot is closed, no publication changes it, and closing again changes nothing.
pub proof fn lemma_closed_slot_is_final<T>(s: EndpointState<T>, vals: Seq<T>)
    requires
        s.closed,
    ensures
        s.spec_publish_all(vals) == s,
        s.spec_close() == s,
    decreases vals.len(),
{
    if vals.len() > 0 {
        lemma_closed_slot_is_final(s, vals.drop_last());
    }
}

} // verus!
