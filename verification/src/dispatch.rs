//! The event dispatcher: which file events concern the index, and how.

use crate::date_key::date_key_of;
use crate::link_plan::{link, meets, planned, unlink, LinkError, LinkPlan, PlanView, Profile};
use vstd::prelude::*;
use vstd::string::*;

verus! {

/// A change reported for the watched tree, with the paths it carries.
#[derive(Debug)]
pub enum FsEvent {
    /// A file was created.
    Create(String),
    /// A file's content or metadata changed.
    Write(String),
    /// A file's permissions changed.
    Chmod(String),
    /// A file was removed.
    Remove(String),
    /// A file was renamed: the old path, then the new one.
    Rename(String, String),
    /// Anything else.
    Other,
}

impl FsEvent {
    /// The path an event is indexed by, and the profile it calls for. A
    /// rename is indexed by its new path only: the entry of the old path is
    /// left standing.
    pub open spec fn subject(self) -> Option<(Seq<char>, Profile)> {
        match self {
            FsEvent::Create(path) => Some((path@, Profile::Link)),
            FsEvent::Write(path) => Some((path@, Profile::Link)),
            FsEvent::Chmod(path) => Some((path@, Profile::Link)),
            FsEvent::Remove(path) => Some((path@, Profile::Unlink)),
            FsEvent::Rename(_, to) => Some((to@, Profile::Link)),
            FsEvent::Other => None,
        }
    }
}

/// What an event owes the index under `target`: nothing where it carries no
/// usable path or the path holds no date key, else the plan for that key.
pub open spec fn handled(target: Seq<char>, event: FsEvent) -> Option<Result<PlanView, crate::link_plan::LinkFailure>> {
    match event.subject() {
        None => None,
        Some((path, profile)) => match date_key_of(path) {
            None => None,
            Some(key) => Some(planned(target, key, path, profile)),
        },
    }
}

/// Routes one event: `None` where it is to be ignored, else the plan for
/// it or the reason there is none.
pub fn handle(target: &str, evt: &FsEvent) -> (r: Option<Result<LinkPlan, LinkError>>)
    ensures
        r is Some <==> handled(target@, *evt) is Some,
        r is Some ==> meets(r->Some_0, handled(target@, *evt)->Some_0),
{
    match evt {
        FsEvent::Create(path) => match crate::date_key::matches(path.as_str()) {
            Some(key) => Some(link(target, key.as_str(), path.as_str())),
            None => None,
        },
        FsEvent::Write(path) => match crate::date_key::matches(path.as_str()) {
            Some(key) => Some(link(target, key.as_str(), path.as_str())),
            None => None,
        },
        FsEvent::Chmod(path) => match crate::date_key::matches(path.as_str()) {
            Some(key) => Some(link(target, key.as_str(), path.as_str())),
            None => None,
        },
        FsEvent::Remove(path) => match crate::date_key::matches(path.as_str()) {
            Some(key) => Some(unlink(target, key.as_str(), path.as_str())),
            None => None,
        },
        FsEvent::Rename(_, to) => match crate::date_key::matches(to.as_str()) {
            Some(key) => Some(link(target, key.as_str(), to.as_str())),
            None => None,
        },
        FsEvent::Other => None,
    }
}

} // verus!
