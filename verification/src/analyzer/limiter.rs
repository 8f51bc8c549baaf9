//! The process limiter: a counting semaphore that bounds how many external
//! analysis processes run at once. The counter and its rules are here; the
//! caller that blocks on it holds it behind its own lock.

use vstd::prelude::*;

verus! {

/// The limiter as plain numbers.
pub struct LimiterState {
    pub max: nat,
    pub running: nat,
}

/// What a caller can ask of the limiter.
pub enum LimiterOp {
    Acquire,
    Release,
}

impl LimiterState {
    /// No more permits are out than the limit allows, and the limit is at
    /// least one.
    pub open spec fn bounded(self) -> bool {
        1 <= self.max && self.running <= self.max
    }

    /// An acquire takes a permit if one is free and else changes nothing;
    /// a release gives one back if any is out.
    pub open spec fn apply(self, op: LimiterOp) -> LimiterState {
        match op {
            LimiterOp::Acquire => if self.running < self.max {
                LimiterState { running: self.running + 1, ..self }
            } else {
                self
            },
            LimiterOp::Release => if self.running > 0 {
                LimiterState { running: (self.running - 1) as nat, ..self }
            } else {
                self
            },
        }
    }

    /// The state after a whole history of requests, in order.
    pub open spec fn run(self, ops: Seq<LimiterOp>) -> LimiterState
        decreases ops.len(),
    {
        if ops.len() == 0 {
            self
        } else {
            self.run(ops.drop_last()).apply(ops.last())
        }
    }

    /// Whatever is asked of a limiter, in whatever order and however often,
    /// the permits that are out never exceed its limit, and the limit stays.
    pub proof fn lemma_never_exceeds(self, ops: Seq<LimiterOp>)
        requires
            self.bounded(),
        ensures
            self.run(ops).bounded(),
            self.run(ops).max == self.max,
        decreases ops.len(),
    {
        if ops.len() > 0 {
            self.lemma_never_exceeds(ops.drop_last());
        }
    }
}

/// The limit to use: the configured one, or the available parallelism where
/// none is configured, and never less than one.
pub open spec fn effective_limit(configured: Option<usize>, available: usize) -> nat {
    let wanted = match configured {
        Some(n) => n,
        None => available,
    };
    if wanted < 1 {
        1
    } else {
        wanted as nat
    }
}

/// Counts the permits that are out.
pub struct ProcessLimiter {
    max: usize,
    running: usize,
}

impl View for ProcessLimiter {
    type V = LimiterState;

    closed spec fn view(&self) -> LimiterState {
        LimiterState { max: self.max as nat, running: self.running as nat }
    }
}

impl ProcessLimiter {
    #[verifier::type_invariant]
    closed spec fn within_limit(self) -> bool {
        1 <= self.max && self.running <= self.max
    }

    /// A limiter with no permit out.
    pub fn new(configured: Option<usize>, available_parallelism: usize) -> (limiter: Self)
        ensures
            limiter@.max == effective_limit(configured, available_parallelism),
            limiter@.running == 0,
            limiter@.bounded(),
    {
        let wanted: usize = match configured {
            Some(n) => n,
            None => available_parallelism,
        };
        let max: usize = if wanted < 1 {
            1
        } else {
            wanted
        };
        ProcessLimiter { max, running: 0 }
    }

    /// The limit.
    pub fn capacity(&self) -> (max: usize)
        ensures
            max == self@.max,
            max >= 1,
    {
        proof {
            use_type_invariant(self);
        }
        self.max
    }

    /// The permits that are out: never more than the limit.
    pub fn outstanding(&self) -> (running: usize)
        ensures
            running == self@.running,
            running <= self@.max,
            self@.bounded(),
    {
        proof {
            use_type_invariant(self);
        }
        self.running
    }

    /// Takes a permit if fewer than the limit are out. The caller that gets
    /// `false` waits and asks again.
    pub fn try_acquire(&mut self) -> (granted: bool)
        ensures
            granted == (old(self)@.running < old(self)@.max),
            final(self)@ == old(self)@.apply(LimiterOp::Acquire),
            final(self)@.bounded(),
    {
        proof {
            use_type_invariant(&*self);
        }
        if self.running < self.max {
            self.running = self.running + 1;
            true
        } else {
            false
        }
    }

    /// Gives a permit back. Returns whether one was out.
    pub fn release(&mut self) -> (released: bool)
        ensures
            released == (old(self)@.running > 0),
            final(self)@ == old(self)@.apply(LimiterOp::Release),
            final(self)@.bounded(),
    {
        proof {
            use_type_invariant(&*self);
        }
        if self.running > 0 {
            self.running = self.running - 1;
            true
        } else {
            false
        }
    }
}

} // verus!
