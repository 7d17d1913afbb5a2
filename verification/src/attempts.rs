//! What became of each attempt to run a command.

use vstd::prelude::*;

verus! {

/// There are no more attempts than this.
pub const MAX_RETRIES: usize = 32;

/// What became of one attempt.
#[derive(Clone, Copy, Debug)]
pub struct AttemptResult {
    /// `completed`, `timeout` or `signal`.
    pub status: &'static str,
    /// The exit code, if it completed.
    pub exit_code: Option<i32>,
    /// How long it took, in milliseconds.
    pub elapsed_ms: u64,
}

impl Default for AttemptResult {
    /// No attempt.
    fn default() -> (result: AttemptResult)
        ensures
            result == (AttemptResult { status: "", exit_code: None, elapsed_ms: 0 }),
    {
        AttemptResult { status: "", exit_code: None, elapsed_ms: 0 }
    }
}

/// The attempts, in order. There is room for as many as there can be.
#[derive(Debug)]
pub struct Attempts {
    data: [AttemptResult; 32],
    len: usize,
}

impl View for Attempts {
    type V = Seq<AttemptResult>;

    closed spec fn view(&self) -> Seq<AttemptResult> {
        self.data@.take(self.len as int)
    }
}

impl Default for Attempts {
    /// No attempts.
    fn default() -> (attempts: Attempts)
        ensures
            attempts@ == Seq::<AttemptResult>::empty(),
    {
        Attempts::new()
    }
}

impl Attempts {
    /// No more attempts than there is room for.
    #[verifier::type_invariant]
    spec fn fits(self) -> bool {
        self.len <= MAX_RETRIES
    }

    /// No attempts.
    pub fn new() -> (attempts: Attempts)
        ensures
            attempts@ == Seq::<AttemptResult>::empty(),
    {
        let none = AttemptResult { status: "", exit_code: None, elapsed_ms: 0 };
        let attempts = Attempts { data: [none; 32], len: 0 };
        assert(attempts@ =~= Seq::empty());
        attempts
    }

    /// Adds an attempt; one more than there is room for is dropped.
    pub fn push(&mut self, item: AttemptResult)
        ensures
            final(self)@ == (if old(self)@.len() < MAX_RETRIES {
                old(self)@.push(item)
            } else {
                old(self)@
            }),
    {
        proof {
            use_type_invariant(&*self);
        }
        if self.len < MAX_RETRIES {
            let n: usize = self.len;
            self.data[n] = item;
            self.len = n + 1;
            assert(self@ =~= old(self)@.push(item));
        }
    }

    /// The attempts, in order.
    pub fn as_slice(&self) -> (slice: &[AttemptResult])
        ensures
            slice@ == self@,
    {
        proof {
            use_type_invariant(self);
        }
        vstd::slice::slice_subrange(self.data.as_slice(), 0, self.len)
    }

    /// How many attempts there are.
    pub fn len(&self) -> (n: usize)
        ensures
            n == self@.len(),
            n <= MAX_RETRIES,
    {
        proof {
            use_type_invariant(self);
        }
        self.len
    }

    /// Are there no attempts?
    pub fn is_empty(&self) -> (yes: bool)
        ensures
            yes == (self@.len() == 0),
    {
        proof {
            use_type_invariant(self);
        }
        self.len == 0
    }
}

} // verus!
