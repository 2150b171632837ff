//! Cooperative poll-driver bookkeeping.
//!
//! One logical task runs at a time; a task that has no work suspends on a
//! resumption condition merged from "timer elapsed" and "stream ready". The
//! decisions of the driver — whether a condition is met now, which suspended
//! task runs next, and how long the OS-level wait may block — are verified
//! here; the blocking readiness primitive itself stays outside.

use vstd::prelude::*;

verus! {

/// The condition on which a suspended task resumes: at or after a timer
/// deadline, when its stream becomes ready, or whichever comes first.
#[derive(Clone, Copy, Debug, PartialEq, Eq)]
pub struct WaitCondition {
    /// Resume when the driver's clock reaches this instant, if set.
    pub deadline: Option<u64>,
    /// Resume when the task's stream becomes readable or writable.
    pub on_stream_ready: bool,
}

/// Whether `c` lets its task resume at instant `now` with the task's
/// stream readiness being `stream_ready`.
pub open spec fn spec_satisfied(c: WaitCondition, now: u64, stream_ready: bool) -> bool {
    ||| (c.deadline matches Some(d) && now >= d)
    ||| (c.on_stream_ready && stream_ready)
}

impl WaitCondition {
    /// A pure timer wait.
    pub fn timer(deadline: u64) -> (c: Self)
        ensures
            c.deadline == Some(deadline),
            !c.on_stream_ready,
    {
        WaitCondition { deadline: Some(deadline), on_stream_ready: false }
    }

    /// A pure stream-readiness wait.
    pub fn stream() -> (c: Self)
        ensures
            c.deadline is None,
            c.on_stream_ready,
    {
        WaitCondition { deadline: None, on_stream_ready: true }
    }

    /// Merges two resumption conditions into the one a task suspends on:
    /// the merged condition is satisfied exactly when either part is.
    pub fn merge(self, other: Self) -> (c: Self)
        ensures
            forall|now: u64, ready: bool|
                spec_satisfied(c, now, ready) == (spec_satisfied(self, now, ready)
                    || spec_satisfied(other, now, ready)),
    {
        let deadline = match (self.deadline, other.deadline) {
            (Some(a), Some(b)) => if a <= b {
                Some(a)
            } else {
                Some(b)
            },
            (Some(a), None) => Some(a),
            (None, Some(b)) => Some(b),
            (None, None) => None,
        };
        WaitCondition { deadline, on_stream_ready: self.on_stream_ready || other.on_stream_ready }
    }

    /// Decides whether this condition is met at the present instant.
    pub fn is_met(&self, now: u64, stream_ready: bool) -> (b: bool)
        ensures
            b == spec_satisfied(*self, now, stream_ready),
    {
        let timer_met = match self.deadline {
            Some(d) => now >= d,
            None => false,
        };
        timer_met || (self.on_stream_ready && stream_ready)
    }
}

/// The driver's bookkeeping: one wait condition per suspended task, indexed
/// by the task's slot.
pub struct PollDriver {
    pub waits: Vec<WaitCondition>,
}

impl PollDriver {
    /// A driver with no tasks yet.
    pub fn new() -> (d: Self)
        ensures
            d.waits@.len() == 0,
    {
        PollDriver { waits: Vec::new() }
    }

    /// Registers a new task, suspended on `c`, and returns its slot.
    pub fn register(&mut self, c: WaitCondition) -> (id: usize)
        ensures
            final(self).waits@ == old(self).waits@.push(c),
            id == old(self).waits@.len(),
    {
        let id = self.waits.len();
        self.waits.push(c);
        id
    }

    /// Records the condition on which task `id` suspends next.
    pub fn resuspend(&mut self, id: usize, c: WaitCondition)
        requires
            id < old(self).waits@.len(),
        ensures
            final(self).waits@ == old(self).waits@.update(id as int, c),
    {
        self.waits.set(id, c);
    }

    /// The first task whose condition the present instant satisfies, if
    /// any: the one the driver resumes next. `stream_ready[i]` reports the
    /// readiness of task `i`'s stream.
    pub fn next_runnable(&self, now: u64, stream_ready: &Vec<bool>) -> (r: Option<usize>)
        requires
            stream_ready@.len() == self.waits@.len(),
        ensures
            match r {
                Some(i) => {
                    &&& i < self.waits@.len()
                    &&& spec_satisfied(self.waits@[i as int], now, stream_ready@[i as int])
                    &&& forall|j: int|
                        0 <= j < i ==> !spec_satisfied(self.waits@[j], now, stream_ready@[j])
                },
                None => forall|j: int|
                    0 <= j < self.waits@.len() ==> !spec_satisfied(
                        self.waits@[j],
                        now,
                        stream_ready@[j],
                    ),
            },
    {
        let mut i: usize = 0;
        while i < self.waits.len()
            invariant
                i <= self.waits@.len(),
                stream_ready@.len() == self.waits@.len(),
                forall|j: int|
                    0 <= j < i ==> !spec_satisfied(self.waits@[j], now, stream_ready@[j]),
            decreases self.waits@.len() - i,
        {
            if self.waits[i].is_met(now, stream_ready[i]) {
                return Some(i);
            }
            i = i + 1;
        }
        None
    }

    /// The earliest timer deadline among all suspended tasks: the longest
    /// the OS-level wait may block before some timer is due. `None` when no
    /// task waits on a timer, in which case the wait may block until a
    /// stream becomes ready.
    pub fn earliest_deadline(&self) -> (r: Option<u64>)
        ensures
            match r {
                Some(d) => {
                    &&& exists|j: int|
                        0 <= j < self.waits@.len() && self.waits@[j].deadline == Some(d)
                    &&& forall|j: int|
                        0 <= j < self.waits@.len() && self.waits@[j].deadline is Some
                            ==> d <= self.waits@[j].deadline->0
                },
                None => forall|j: int|
                    0 <= j < self.waits@.len() ==> self.waits@[j].deadline is None,
            },
    {
        let mut best: Option<u64> = None;
        let mut i: usize = 0;
        while i < self.waits.len()
            invariant
                i <= self.waits@.len(),
                match best {
                    Some(d) => {
                        &&& exists|j: int| 0 <= j < i && self.waits@[j].deadline == Some(d)
                        &&& forall|j: int|
                            0 <= j < i && self.waits@[j].deadline is Some
                                ==> d <= self.waits@[j].deadline->0
                    },
                    None => forall|j: int| 0 <= j < i ==> self.waits@[j].deadline is None,
                },
            decreases self.waits@.len() - i,
        {
            match self.waits[i].deadline {
                Some(d) => {
                    best = match best {
                        Some(b) => if d < b {
                            Some(d)
                        } else {
                            Some(b)
                        },
                        None => Some(d),
                    };
                },
                None => {},
            }
            i = i + 1;
        }
        best
    }
}

} // verus!
