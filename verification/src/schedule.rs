//! When the maintenance operations run, and how a node goes about joining a
//! ring when it starts.
//!
//! Nothing here waits or spawns: the program that runs the node asks for the
//! periods and reports each attempt to join, and is told what to do next.

use vstd::prelude::*;

verus! {

/// The operations that a node repeats for as long as it runs.
#[derive(Clone, Copy, Debug, PartialEq, Eq, Structural)]
pub enum Task {
    Stabilize,
    FixFingers,
    CheckPredecessor,
    ReconcileSuccessors,
}

/// The periods of the maintenance operations, in milliseconds.
#[derive(Clone, Copy, Debug, PartialEq, Eq, Structural)]
pub struct Schedule {
    pub stabilize: u64,
    pub fix_fingers: u64,
    pub check_predecessor: u64,
    pub reconcile_successors: u64,
}

/// The number of successors that a node keeps unless told otherwise.
pub const REPLICATION_FACTOR: usize = 3;

/// The most attempts to join a ring that a node makes unless told otherwise.
pub const MAX_RETRIES: u32 = 5;

impl Schedule {
    /// The period of `task` under this schedule.
    pub open spec fn spec_period(self, task: Task) -> u64 {
        match task {
            Task::Stabilize => self.stabilize,
            Task::FixFingers => self.fix_fingers,
            Task::CheckPredecessor => self.check_predecessor,
            Task::ReconcileSuccessors => self.reconcile_successors,
        }
    }

    /// The period of `task` under this schedule, in milliseconds.
    #[verifier::when_used_as_spec(spec_period)]
    pub fn period(self, task: Task) -> (r: u64)
        ensures
            r == self.spec_period(task),
    {
        match task {
            Task::Stabilize => self.stabilize,
            Task::FixFingers => self.fix_fingers,
            Task::CheckPredecessor => self.check_predecessor,
            Task::ReconcileSuccessors => self.reconcile_successors,
        }
    }
}

impl Default for Schedule {
    /// One second between runs of each operation, five seconds for the
    /// renewal of the successor list.
    fn default() -> (r: Schedule)
        ensures
            r == (Schedule {
                stabilize: 1000,
                fix_fingers: 1000,
                check_predecessor: 1000,
                reconcile_successors: 5000,
            }),
    {
        Schedule {
            stabilize: 1000,
            fix_fingers: 1000,
            check_predecessor: 1000,
            reconcile_successors: 5000,
        }
    }
}

/// What a starting node does next about joining a ring.
#[derive(Clone, Copy, Debug, PartialEq, Eq, Structural)]
pub enum JoinStep {
    /// Ask the known node of the ring.
    Attempt,
    /// The node has joined; maintenance can start.
    Joined,
    /// Every attempt failed; the node starts as a ring of its own.
    Alone,
}

/// The count of the attempts of a starting node to join a ring.
#[derive(Clone, Copy, Debug)]
pub struct JoinAttempts {
    limit: u32,
    made: u32,
}

impl JoinAttempts {
    /// The most attempts that are made.
    pub closed spec fn limit(self) -> nat {
        self.limit as nat
    }

    /// The attempts that have failed so far.
    pub closed spec fn made(self) -> nat {
        self.made as nat
    }

    /// No more attempts are counted than the limit allows.
    pub open spec fn wf(self) -> bool {
        self.made() <= self.limit()
    }

    /// A count for at most `max_retries` attempts, none of them made yet.
    pub fn new(max_retries: u32) -> (r: JoinAttempts)
        ensures
            r.wf(),
            r.limit() == max_retries,
            r.made() == 0,
    {
        JoinAttempts { limit: max_retries, made: 0 }
    }

    /// What to do first: attempt to join, unless no attempt is allowed.
    pub fn begin(&self) -> (step: JoinStep)
        requires
            self.wf(),
        ensures
            step == if self.made() < self.limit() {
                JoinStep::Attempt
            } else {
                JoinStep::Alone
            },
    {
        if self.made < self.limit {
            JoinStep::Attempt
        } else {
            JoinStep::Alone
        }
    }

    /// Takes note of the outcome of an attempt and says what to do next. A
    /// success ends the matter. A failure counts, as long as the limit is not
    /// reached; the next attempt follows while the limit allows one, and
    /// after the last the node gives up and starts alone.
    pub fn record(&mut self, joined: bool) -> (step: JoinStep)
        requires
            old(self).wf(),
        ensures
            final(self).wf(),
            final(self).limit() == old(self).limit(),
            joined ==> step == JoinStep::Joined && final(self).made() == old(self).made(),
            !joined ==> final(self).made() == if old(self).made() < old(self).limit() {
                old(self).made() + 1
            } else {
                old(self).made()
            },
            !joined ==> step == if final(self).made() < final(self).limit() {
                JoinStep::Attempt
            } else {
                JoinStep::Alone
            },
    {
        if joined {
            JoinStep::Joined
        } else {
            if self.made < self.limit {
                self.made = self.made + 1;
            }
            if self.made < self.limit {
                JoinStep::Attempt
            } else {
                JoinStep::Alone
            }
        }
    }
}

} // verus!
