//! The persistent-PATH update decision: append the toolchain binary
//! directory once, and recognise it on every later run. Reading the current
//! value and persisting the new one happen outside; the decision and the new
//! value are computed here.

use vstd::prelude::*;
use vstd::string::StringExecFns;
use crate::text::{contains_seq, matches_at, str_contains};
use crate::process::SpawnOutcome;
use crate::process::spec_spawn_ok;

verus! {

/// What the updater decided: nothing to do, or a new value to persist.
#[derive(PartialEq, Eq, Debug)]
pub enum PathPlan {
    /// The target directory already occurs in the current value; the update
    /// is a no-op.
    AlreadyPresent,
    /// The value to persist: the current value with the target appended.
    Updated(String),
}

/// The appended value: the current value, the list delimiter, then the
/// target directory.
pub open spec fn spec_joined(current: Seq<char>, target: Seq<char>) -> Seq<char> {
    current + ";"@ + target
}

/// Decide the PATH update. Containment is deliberately a plain substring
/// test — a target that happens to occur inside an unrelated entry counts
/// as present — preserving the loose idempotency check this recipe uses.
pub fn plan_path_update(current: &str, target: &str) -> (r: PathPlan)
    ensures
        contains_seq(current@, target@) ==> r == PathPlan::AlreadyPresent,
        !contains_seq(current@, target@) ==> (r matches PathPlan::Updated(n)
            && n@ == spec_joined(current@, target@)),
{
    if str_contains(current, target) {
        PathPlan::AlreadyPresent
    } else {
        let mut s = current.to_owned();
        s.append(";");
        s.append(target);
        PathPlan::Updated(s)
    }
}

/// The outcome of a whole update, with persistence success reported
/// distinctly from the already-present short-circuit.
#[derive(Clone, Copy, PartialEq, Eq, Debug)]
pub enum PathOutcome {
    AlreadyPresent,
    Persisted,
    PersistFailed,
}

/// Classify the persistence step that ran the appended value through the
/// OS's permanent-environment mechanism.
pub fn classify_persist(o: &SpawnOutcome) -> (r: PathOutcome)
    ensures
        spec_spawn_ok(*o) ==> r == PathOutcome::Persisted,
        !spec_spawn_ok(*o) ==> r == PathOutcome::PersistFailed,
{
    match o {
        SpawnOutcome::Finished(rep) => if rep.success {
            PathOutcome::Persisted
        } else {
            PathOutcome::PersistFailed
        },
        SpawnOutcome::LaunchFailed => PathOutcome::PersistFailed,
    }
}

/// The appended value contains the target, at the position right after the
/// delimiter.
pub proof fn lemma_joined_contains_target(current: Seq<char>, target: Seq<char>)
    ensures
        contains_seq(spec_joined(current, target), target),
{
    reveal_strlit(";");
    let j = spec_joined(current, target);
    let at = current.len() as int + 1;
    assert(j.subrange(at, at + target.len()) =~= target);
    assert(matches_at(j, target, at));
}

/// PATH update idempotency: after one update appended the target, a second
/// update with the same target finds it present and is a no-op, so the
/// target is appended exactly once however often the updater runs.
pub proof fn lemma_path_update_idempotent(current: Seq<char>, target: Seq<char>)
    requires
        !contains_seq(current, target),
    ensures
        contains_seq(spec_joined(current, target), target),
{
    lemma_joined_contains_target(current, target);
}

} // verus!
