use vstd::prelude::*;

use crate::account::{resume_spec, AccountError, Outcome, Pending, Step};
use crate::hashing::HashEngine;
use crate::store::{answer, MemStore};

verus! {

/// How many more replies an operation waiting in `p` takes at most.
pub open spec fn pending_rank(p: Pending<Seq<char>>) -> nat {
    match p {
        Pending::ReadCounter { .. } => 3,
        Pending::WriteCounter { .. } => 2,
        Pending::ReadAccount { .. } => 2,
        _ => 1,
    }
}

pub open spec fn step_rank(s: Step<Seq<u8>, Seq<char>>) -> nat {
    match s {
        Step::Send { next, .. } => pending_rank(next),
        Step::Done { .. } => 0,
    }
}

/// Where an operation at step `s` ends against a key-document store holding `m`, with no
/// other client in between: the records left and the result.
pub open spec fn settle(e: HashEngine, m: Map<u64, Seq<u8>>, s: Step<Seq<u8>, Seq<char>>) -> (
    Map<u64, Seq<u8>>,
    Result<Outcome, AccountError>,
)
    decreases step_rank(s),
{
    match s {
        Step::Done { result } => (m, result),
        Step::Send { next, request } => {
            let (m2, reply) = answer(m, request);
            settle(e, m2, resume_spec(e, next, reply))
        },
    }
}

impl MemStore {
    /// Runs an operation to its end against this store.
    pub fn run(&mut self, e: &HashEngine, first: Step<Vec<u8>, String>) -> (r: Result<
        Outcome,
        AccountError,
    >)
        ensures
            (final(self)@, r) == settle(*e, old(self)@, first@),
        decreases step_rank(first@),
    {
        match first {
            Step::Done { result } => result,
            Step::Send { next, request } => {
                let reply = self.answer(request);
                let s = next.resume(e, reply);
                self.run(e, s)
            },
        }
    }
}

} // verus!
