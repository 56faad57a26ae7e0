//! Outcome of a multi-step workflow.

use vstd::prelude::*;

use crate::text::{join, join_seq, views};

verus! {

/// The outcome of a workflow that succeeded overall: the non-fatal failures
/// of its steps, as warnings.
#[derive(Debug)]
pub struct WorkflowOutcome {
    pub warnings: Vec<String>,
}

impl Default for WorkflowOutcome {
    fn default() -> (res: Self)
        ensures
            res.warnings@.len() == 0,
    {
        WorkflowOutcome { warnings: Vec::new() }
    }
}

impl WorkflowOutcome {
    /// The characters of each warning, in order.
    pub open spec fn warning_views(&self) -> Seq<Seq<char>> {
        views(self.warnings@)
    }

    /// An outcome with no warnings.
    pub fn ok() -> (res: Self)
        ensures
            res.warnings@.len() == 0,
    {
        WorkflowOutcome { warnings: Vec::new() }
    }

    /// Appends a warning.
    pub fn add_warning(&mut self, msg: &str)
        ensures
            final(self).warnings@.len() == old(self).warnings@.len() + 1,
            final(self).warnings@.drop_last() == old(self).warnings@,
            final(self).warnings@.last()@ == msg@,
            final(self).warning_views() == old(self).warning_views().push(msg@),
    {
        self.warnings.push(String::from_str(msg));
        assert(self.warnings@.drop_last() =~= old(self).warnings@);
        assert(views(self.warnings@) =~= views(old(self).warnings@).push(msg@));
    }

    /// Whether any warning was collected.
    pub fn has_warnings(&self) -> (res: bool)
        ensures
            res == (self.warnings@.len() > 0),
    {
        self.warnings.len() > 0
    }

    /// All warnings joined with `; `.
    pub fn warning_summary(&self) -> (res: String)
        ensures
            res@ == join_seq(self.warning_views(), "; "@),
    {
        join(&self.warnings, "; ")
    }
}

} // verus!
