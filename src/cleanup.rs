//! Removal of a directory tree, planned from one walk of it: progress
//! reports proportional to the entry count, each file deleted on its own,
//! then the emptied tree removed at once.

use vstd::prelude::*;
use crate::progress::{progress_step, step_for};
use vstd::string::*;

verus! {

/// One entry met while walking the tree, in walk order.
#[derive(Clone, Debug)]
pub struct WalkEntry {
    pub path: String,
    pub is_file: bool,
}

/// One step of a removal.
#[derive(Clone, Debug)]
pub enum RemovalStep {
    /// `current` of `total` entries have been handled.
    Report { current: u64, total: u64 },
    /// Delete this file; a failure aborts the removal.
    RemoveFile { path: String },
    /// Remove what is left of the tree's root.
    RemoveRoot,
}

/// The steps for the first `n` entries of the walk.
pub open spec fn steps_upto(entries: Seq<WalkEntry>, n: nat) -> Seq<RemovalStep>
    decreases n,
{
    if n == 0 || n > entries.len() {
        Seq::empty()
    } else {
        let i = n - 1;
        let prev = steps_upto(entries, (n - 1) as nat);
        let reported = if (i as int) % (step_for(entries.len()) as int) == 0 {
            prev.push(RemovalStep::Report { current: i as u64, total: entries.len() as u64 })
        } else {
            prev
        };
        if entries[i].is_file {
            reported.push(RemovalStep::RemoveFile { path: entries[i].path })
        } else {
            reported
        }
    }
}

/// The whole removal: nothing at all when the root does not exist.
pub open spec fn removal_plan(root_exists: bool, entries: Seq<WalkEntry>) -> Seq<RemovalStep> {
    if !root_exists {
        Seq::empty()
    } else {
        steps_upto(entries, entries.len()).push(RemovalStep::RemoveRoot)
    }
}

/// Whether a step is a progress report.
pub open spec fn is_report(s: RemovalStep) -> bool {
    s is Report
}

/// Plans the removal of a tree from whether its root exists and the entries
/// of one walk of it.
pub fn plan_removal(root_exists: bool, entries: &Vec<WalkEntry>) -> (r: Vec<RemovalStep>)
    ensures
        r@ == removal_plan(root_exists, entries@),
{
    let mut steps: Vec<RemovalStep> = Vec::new();
    if !root_exists {
        return steps;
    }
    let total = entries.len();
    let step = progress_step(total as u64);
    let mut i: usize = 0;
    while i < total
        invariant
            i <= total,
            total == entries@.len(),
            step == step_for(total as nat),
            steps@ == steps_upto(entries@, i as nat),
        decreases total - i,
    {
        if (i as u64) % step == 0 {
            steps.push(RemovalStep::Report { current: i as u64, total: total as u64 });
        }
        if entries[i].is_file {
            steps.push(RemovalStep::RemoveFile { path: entries[i].path.clone() });
        }
        i = i + 1;
    }
    steps.push(RemovalStep::RemoveRoot);
    steps
}

/// Removing a tree whose root does not exist does nothing and reports
/// nothing.
pub proof fn law_missing_root_is_silent(entries: Seq<WalkEntry>)
    ensures
        removal_plan(false, entries).len() == 0,
        forall|i: int| 0 <= i < removal_plan(false, entries).len() ==> !is_report(#[trigger] removal_plan(false, entries)[i]),
{
}

/// The message for a failed removal step.
pub open spec fn failure_message(step: RemovalStep, root: Seq<char>, cause: Seq<char>) -> Seq<char> {
    match step {
        RemovalStep::RemoveFile { path } => "Failed to remove file "@ + path@ + ": "@ + cause,
        RemovalStep::RemoveRoot => "Failed to remove directory "@ + root + ": "@ + cause,
        RemovalStep::Report { .. } => cause,
    }
}

/// What to do next while removing a tree.
#[derive(Debug)]
pub enum RemovalNext {
    /// Perform this step and report how it went.
    Perform(RemovalStep),
    /// The removal is over with this result.
    Done(Result<(), String>),
}

/// A removal in progress: the planned steps, carried out in order until one
/// fails.
#[derive(Debug)]
pub struct RemovalRun {
    pub root: String,
    pub steps: Vec<RemovalStep>,
    pub next: usize,
}

fn copy_step(s: &RemovalStep) -> (r: RemovalStep)
    ensures
        r == *s,
{
    match s {
        RemovalStep::Report { current, total } => RemovalStep::Report { current: *current, total: *total },
        RemovalStep::RemoveFile { path } => RemovalStep::RemoveFile { path: path.clone() },
        RemovalStep::RemoveRoot => RemovalStep::RemoveRoot,
    }
}

fn failure_text(step: &RemovalStep, root: &String, cause: String) -> (r: String)
    ensures
        r@ == failure_message(*step, root@, cause@),
{
    match step {
        RemovalStep::RemoveFile { path } => {
            let mut r = String::from_str("Failed to remove file ");
            r.append(path.as_str());
            r.append(": ");
            r.append(cause.as_str());
            r
        },
        RemovalStep::RemoveRoot => {
            let mut r = String::from_str("Failed to remove directory ");
            r.append(root.as_str());
            r.append(": ");
            r.append(cause.as_str());
            r
        },
        RemovalStep::Report { .. } => cause,
    }
}

impl RemovalRun {
    /// The removal of the tree at `root`, planned from whether it exists and
    /// one walk of it.
    pub fn new(root: &str, root_exists: bool, entries: &Vec<WalkEntry>) -> (r: RemovalRun)
        ensures
            r.root@ == root@,
            r.steps@ == removal_plan(root_exists, entries@),
            r.next == 0,
    {
        RemovalRun { root: String::from_str(root), steps: plan_removal(root_exists, entries), next: 0 }
    }

    /// Takes the outcome of the step handed out last (`Ok` before the first)
    /// and says what comes next: on a failure the removal ends at once with
    /// a message naming what could not be removed, and no further step is
    /// handed out; otherwise the next planned step, or success once all are
    /// done.
    pub fn advance(&mut self, last: Result<(), String>) -> (r: RemovalNext)
        ensures
            final(self).root == old(self).root,
            final(self).steps == old(self).steps,
            match last {
                Err(cause) => if 0 < old(self).next <= old(self).steps@.len() {
                    (r matches RemovalNext::Done(Err(msg))
                        && msg@ == failure_message(old(self).steps@[old(self).next - 1], old(self).root@, cause@))
                        && final(self).next == old(self).steps@.len()
                } else {
                    r matches RemovalNext::Done(Err(msg)) && msg@ == cause@
                },
                Ok(()) => if old(self).next < old(self).steps@.len() {
                    r == RemovalNext::Perform(old(self).steps@[old(self).next as int])
                        && final(self).next == old(self).next + 1
                } else {
                    r == RemovalNext::Done(Ok(())) && final(self).next == old(self).next
                },
            },
    {
        match last {
            Err(cause) => {
                if self.next > 0 && self.next <= self.steps.len() {
                    let msg = failure_text(&self.steps[self.next - 1], &self.root, cause);
                    self.next = self.steps.len();
                    RemovalNext::Done(Err(msg))
                } else {
                    RemovalNext::Done(Err(cause))
                }
            },
            Ok(()) => {
                if self.next < self.steps.len() {
                    let step = copy_step(&self.steps[self.next]);
                    self.next = self.next + 1;
                    RemovalNext::Perform(step)
                } else {
                    RemovalNext::Done(Ok(()))
                }
            },
        }
    }
}

} // verus!
