//! Reading a file that another process may hold open: the decisions of a
//! bounded retry loop. The reads and the waits are the caller's.

use vstd::prelude::*;

verus! {

/// The error code with which the operating system refuses to open a file
/// that another process holds exclusively.
pub const SHARING_VIOLATION: i32 = 32;

/// The error says that the file is held exclusively by another process.
pub open spec fn spec_is_transient(code: Option<i32>) -> bool {
    code == Some(SHARING_VIOLATION)
}

/// Whether the error says that the file is held exclusively by another
/// process, which passes.
pub fn is_transient(code: Option<i32>) -> (res: bool)
    ensures
        res == spec_is_transient(code),
{
    match code {
        Some(value) => value == SHARING_VIOLATION,
        None => false,
    }
}

/// What follows an attempt to read.
#[derive(Debug, PartialEq, Eq)]
pub enum ReadStep {
    /// The read is over: with the bytes, or with nothing.
    Done(Option<Vec<u8>>),
    /// The read is to be tried again after so many milliseconds.
    RetryAfter(u64),
}

/// The state of one read: how often it may be tried again, how long to
/// wait before each new attempt, and how often it has been tried again.
#[derive(Debug)]
pub struct RetryingReader {
    max_retries: u32,
    backoff_ms: u64,
    retries: u32,
}

impl RetryingReader {
    /// The number of further attempts allowed after the first.
    pub closed spec fn max_retries(&self) -> u32 {
        self.max_retries
    }

    /// The wait before each further attempt, in milliseconds.
    pub closed spec fn backoff_ms(&self) -> u64 {
        self.backoff_ms
    }

    /// The number of further attempts asked for so far.
    pub closed spec fn retries(&self) -> u32 {
        self.retries
    }

    /// A further attempt may never be asked for more often than allowed.
    #[verifier::type_invariant]
    spec fn inv(self) -> bool {
        self.retries <= self.max_retries
    }

    /// The state before the first attempt.
    pub fn new(max_retries: u32, backoff_ms: u64) -> (res: Self)
        ensures
            res.max_retries() == max_retries,
            res.backoff_ms() == backoff_ms,
            res.retries() == 0,
    {
        RetryingReader { max_retries, backoff_ms, retries: 0 }
    }

    /// Takes the result of an attempt: the bytes, or the error code of the
    /// failure. A success ends the read with the bytes. A failure that
    /// passes asks for another attempt after the fixed wait, as long as
    /// attempts are left; any other failure, or one too many, ends the read
    /// with nothing.
    pub fn on_attempt(&mut self, result: Result<Vec<u8>, Option<i32>>) -> (step: ReadStep)
        ensures
            final(self).max_retries() == old(self).max_retries(),
            final(self).backoff_ms() == old(self).backoff_ms(),
            final(self).retries() <= final(self).max_retries(),
            match result {
                Ok(bytes) => step == ReadStep::Done(Some(bytes)) && final(self).retries() == old(
                    self,
                ).retries(),
                Err(code) => if spec_is_transient(code) && old(self).retries() < old(
                    self,
                ).max_retries() {
                    step == ReadStep::RetryAfter(old(self).backoff_ms()) && final(self).retries()
                        == old(self).retries() + 1
                } else {
                    step == ReadStep::Done(None) && final(self).retries() == old(self).retries()
                },
            },
    {
        proof {
            use_type_invariant(&*self);
        }
        match result {
            Ok(bytes) => ReadStep::Done(Some(bytes)),
            Err(code) => {
                if is_transient(code) && self.retries < self.max_retries {
                    self.retries = self.retries + 1;
                    ReadStep::RetryAfter(self.backoff_ms)
                } else {
                    ReadStep::Done(None)
                }
            },
        }
    }
}

} // verus!
