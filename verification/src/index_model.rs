//! A model of the index tree, and what carrying out a plan does to it.
//!
//! The model holds which directories exist and which entry points where.
//! Every change succeeds in it: it says what a run of the steps achieves
//! when the file system does not refuse.

use crate::dispatch::{handled, FsEvent};
use crate::link_plan::{step_after, Outcome, PlanView, Profile, Step};
use vstd::prelude::*;

verus! {

/// The index tree as far as the plans touch it.
pub struct IndexTree {
    /// The directories that exist.
    pub directories: Set<Seq<char>>,
    /// Each entry path with the source it points to.
    pub links: Map<Seq<char>, Seq<char>>,
}

/// One step carried out on the model: the tree after it and what it reports.
pub open spec fn perform(tree: IndexTree, plan: PlanView, step: Step) -> (IndexTree, Outcome) {
    match step {
        Step::ProbeDirectory => (
            tree,
            if tree.directories.contains(plan.directory) {
                Outcome::Present
            } else {
                Outcome::Absent
            },
        ),
        Step::CreateDirectories => (
            IndexTree { directories: tree.directories.insert(plan.directory), links: tree.links },
            Outcome::Succeeded,
        ),
        Step::ProbeEntry => (
            tree,
            if tree.links.dom().contains(plan.entry) {
                Outcome::Present
            } else {
                Outcome::Absent
            },
        ),
        Step::RemoveEntry => (
            IndexTree { directories: tree.directories, links: tree.links.remove(plan.entry) },
            Outcome::Succeeded,
        ),
        Step::CreateLink => (
            IndexTree {
                directories: tree.directories,
                links: tree.links.insert(plan.entry, plan.source),
            },
            Outcome::Succeeded,
        ),
        Step::Finished => (tree, Outcome::Succeeded),
        Step::Failed => (tree, Outcome::Failed),
    }
}

/// The steps carried out from `step` on, at most `limit` of them: the tree
/// at the end and the step reached.
pub open spec fn run(tree: IndexTree, plan: PlanView, step: Step, limit: nat) -> (IndexTree, Step)
    decreases limit,
{
    if limit == 0 || step == Step::Finished || step == Step::Failed {
        (tree, step)
    } else {
        let (next_tree, outcome) = perform(tree, plan, step);
        run(next_tree, plan, step_after(plan.profile, step, outcome), (limit - 1) as nat)
    }
}

/// A whole plan carried out: no run takes more than five steps.
pub open spec fn carried_out(tree: IndexTree, plan: PlanView) -> (IndexTree, Step) {
    run(tree, plan, Step::ProbeDirectory, 5)
}

/// A link plan finishes; afterwards its directory exists and its entry
/// points to its source, whether or not an entry stood there before. All
/// other entries and directories are as they were.
pub proof fn law_link_installs_entry(tree: IndexTree, plan: PlanView)
    requires
        plan.profile == Profile::Link,
    ensures
        carried_out(tree, plan).1 == Step::Finished,
        carried_out(tree, plan).0.links == tree.links.insert(plan.entry, plan.source),
        carried_out(tree, plan).0.directories == tree.directories.insert(plan.directory),
{
    reveal_with_fuel(run, 6);
    let after = carried_out(tree, plan).0;
    assert(after.links =~= tree.links.insert(plan.entry, plan.source));
    assert(after.directories =~= tree.directories.insert(plan.directory));
}

/// An unlink plan finishes; afterwards nothing stands at its entry path,
/// and all other entries are as they were.
pub proof fn law_unlink_removes_entry(tree: IndexTree, plan: PlanView)
    requires
        plan.profile == Profile::Unlink,
    ensures
        carried_out(tree, plan).1 == Step::Finished,
        carried_out(tree, plan).0.links == tree.links.remove(plan.entry),
        !carried_out(tree, plan).0.links.dom().contains(plan.entry),
        carried_out(tree, plan).0.directories == tree.directories.insert(plan.directory),
{
    reveal_with_fuel(run, 6);
    let after = carried_out(tree, plan).0;
    assert(after.links =~= tree.links.remove(plan.entry));
    assert(after.directories =~= tree.directories.insert(plan.directory));
}

/// Carrying a plan out twice leaves the tree as carrying it out once does.
pub proof fn law_carrying_out_is_idempotent(tree: IndexTree, plan: PlanView)
    ensures
        carried_out(carried_out(tree, plan).0, plan) == carried_out(tree, plan),
{
    let once = carried_out(tree, plan).0;
    let twice = carried_out(once, plan).0;
    match plan.profile {
        Profile::Link => {
            law_link_installs_entry(tree, plan);
            law_link_installs_entry(once, plan);
        },
        Profile::Unlink => {
            law_unlink_removes_entry(tree, plan);
            law_unlink_removes_entry(once, plan);
        },
    }
    assert(twice.links =~= once.links);
    assert(twice.directories =~= once.directories);
}

/// A second link plan for an entry replaces what the first put there: the
/// run finishes, and the entry points to the second plan's source.
pub proof fn law_second_link_replaces_first(tree: IndexTree, first: PlanView, second: PlanView)
    requires
        first.profile == Profile::Link,
        second.profile == Profile::Link,
        first.entry == second.entry,
    ensures
        carried_out(carried_out(tree, first).0, second).1 == Step::Finished,
        carried_out(carried_out(tree, first).0, second).0.links == tree.links.insert(
            second.entry,
            second.source,
        ),
{
    let between = carried_out(tree, first).0;
    law_link_installs_entry(tree, first);
    law_link_installs_entry(between, second);
    assert(between.links.insert(second.entry, second.source) =~= tree.links.insert(
        second.entry,
        second.source,
    ));
}

/// An unlink plan takes away what a link plan for the same entry put
/// there, and puts nothing in its place.
pub proof fn law_unlink_undoes_link(tree: IndexTree, linked: PlanView, unlinked: PlanView)
    requires
        linked.profile == Profile::Link,
        unlinked.profile == Profile::Unlink,
        linked.entry == unlinked.entry,
    ensures
        carried_out(carried_out(tree, linked).0, unlinked).1 == Step::Finished,
        carried_out(carried_out(tree, linked).0, unlinked).0.links == tree.links.remove(
            linked.entry,
        ),
{
    let between = carried_out(tree, linked).0;
    law_link_installs_entry(tree, linked);
    law_unlink_removes_entry(between, unlinked);
    assert(between.links.remove(linked.entry) =~= tree.links.remove(linked.entry));
}

/// From event to tree: where an event owes a plan, carrying the plan out
/// leaves the entry pointing to the event's path, for every event but a
/// removal, and leaves no entry there for a removal.
pub proof fn law_event_reaches_tree(
    tree: IndexTree,
    target: Seq<char>,
    event: FsEvent,
    plan: PlanView,
)
    requires
        handled(target, event) == Some(Ok::<PlanView, crate::link_plan::LinkFailure>(plan)),
    ensures
        event.subject() is Some,
        plan.source == event.subject()->Some_0.0,
        carried_out(tree, plan).1 == Step::Finished,
        event is Remove ==> carried_out(tree, plan).0.links == tree.links.remove(plan.entry),
        !(event is Remove) ==> carried_out(tree, plan).0.links == tree.links.insert(
            plan.entry,
            plan.source,
        ),
{
    if event is Remove {
        law_unlink_removes_entry(tree, plan);
    } else {
        law_link_installs_entry(tree, plan);
    }
}

/// At most one entry stands at an entry path: after a link plan the path
/// points to the plan's source and to nothing else.
pub proof fn law_one_entry_per_path(tree: IndexTree, plan: PlanView)
    requires
        plan.profile == Profile::Link,
    ensures
        carried_out(tree, plan).0.links.dom().contains(plan.entry),
        carried_out(tree, plan).0.links[plan.entry] == plan.source,
{
    law_link_installs_entry(tree, plan);
}

} // verus!
