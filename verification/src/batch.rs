//! Keeping count over a run that works on several directories.
//!
//! A failure in one directory does not end the run. The directories that
//! follow are still worked on; the failures are collected and told at the
//! end, and the run as a whole fails if any of them did.

use vstd::prelude::*;
use crate::text::{lemma_texts_push, texts};

verus! {

/// The directories of a run whose operation failed, in the order of the run.
#[derive(Clone, Debug, PartialEq, Eq, Default)]
pub struct RunReport {
    failed: Vec<String>,
}

impl View for RunReport {
    type V = Seq<Seq<char>>;

    closed spec fn view(&self) -> Seq<Seq<char>> {
        texts(self.failed@)
    }
}

/// The exit status of a run with the given failures: zero where there are
/// none, one where there are any.
pub open spec fn exit_status(failed: Seq<Seq<char>>) -> u8 {
    if failed.len() == 0 {
        0
    } else {
        1
    }
}

impl RunReport {
    /// The report of a run that has not worked on anything yet.
    pub fn new() -> (r: RunReport)
        ensures
            r@ == Seq::<Seq<char>>::empty(),
    {
        let r = RunReport { failed: Vec::new() };
        assert(r@ =~= Seq::<Seq<char>>::empty());
        r
    }

    /// Notes how the operation on `dir` ended.
    pub fn record(&mut self, dir: &str, succeeded: bool)
        ensures
            final(self)@ == (if succeeded {
                old(self)@
            } else {
                old(self)@.push(dir@)
            }),
    {
        if !succeeded {
            let name: String = String::from_str(dir);
            proof {
                lemma_texts_push(self.failed@, name);
            }
            self.failed.push(name);
        }
    }

    /// The directories that failed, in the order of the run.
    pub fn failed(&self) -> (r: &Vec<String>)
        ensures
            texts(r@) == self@,
    {
        &self.failed
    }

    /// The exit status of the run.
    pub fn exit_code(&self) -> (r: u8)
        ensures
            r == exit_status(self@),
    {
        if self.failed.len() == 0 {
            0
        } else {
            1
        }
    }
}

} // verus!
