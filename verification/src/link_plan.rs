//! The link operator: what is to be done in the index for one dated file,
//! and in which order.

use crate::calendar::{date_of_key, is_date_key, parse_date};
use crate::index_path::{date_directory, directory_for, entry_path, file_name_text, target_path};
use vstd::prelude::*;
use vstd::string::*;

verus! {

/// What happens at the entry once a stale one is out of the way.
#[derive(Clone, Copy, Debug, PartialEq, Eq, Structural)]
pub enum Profile {
    /// A symbolic link to the source is put there.
    Link,
    /// Nothing is put there.
    Unlink,
}

/// Why nothing can be done for a file.
#[derive(Debug)]
pub enum LinkError {
    /// The key is no date under either reading; holds the parser's words.
    DateParse(String),
    /// The source path has no final component.
    NoTargetPath,
}

/// The two ways of failing, without the words.
pub enum LinkFailure {
    DateParse,
    NoTargetPath,
}

/// The work for one file: the paths it concerns and its profile.
#[derive(Debug)]
pub struct LinkPlan {
    /// Directory of the entry; made, with its ancestors, if it is missing.
    pub directory: String,
    /// Path of the entry in the index.
    pub entry: String,
    /// The file the entry points to.
    pub source: String,
    pub profile: Profile,
}

/// A plan over mathematical text.
pub struct PlanView {
    pub directory: Seq<char>,
    pub entry: Seq<char>,
    pub source: Seq<char>,
    pub profile: Profile,
}

impl View for LinkPlan {
    type V = PlanView;

    open spec fn view(&self) -> PlanView {
        PlanView {
            directory: self.directory@,
            entry: self.entry@,
            source: self.source@,
            profile: self.profile,
        }
    }
}

impl LinkError {
    /// Which way of failing this is.
    pub open spec fn failure(self) -> LinkFailure {
        match self {
            LinkError::DateParse(_) => LinkFailure::DateParse,
            LinkError::NoTargetPath => LinkFailure::NoTargetPath,
        }
    }

    /// The error in words: the parser's for a key that is no date, and
    /// `no target path` for a source without a final component.
    pub fn message(&self) -> (r: String)
        ensures
            self matches LinkError::DateParse(words) ==> r@ == words@,
            self is NoTargetPath ==> r@ == "no target path"@,
    {
        match self {
            LinkError::DateParse(words) => words.clone(),
            LinkError::NoTargetPath => String::from_str("no target path"),
        }
    }
}

/// The plan owed for a key, a source and an index root: the key is read
/// first, the entry path resolved second, and the first failure wins.
pub open spec fn planned(
    target: Seq<char>,
    key: Seq<char>,
    path: Seq<char>,
    profile: Profile,
) -> Result<PlanView, LinkFailure> {
    match date_of_key(key) {
        None => Err(LinkFailure::DateParse),
        Some(date) => match file_name_text(path) {
            None => Err(LinkFailure::NoTargetPath),
            Some(name) => Ok(
                PlanView {
                    directory: date_directory(target, date),
                    entry: entry_path(target, date, name),
                    source: path,
                    profile,
                },
            ),
        },
    }
}

/// `r` is the plan owed, or fails the way owed.
pub open spec fn meets(r: Result<LinkPlan, LinkError>, owed: Result<PlanView, LinkFailure>) -> bool {
    match owed {
        Ok(plan) => r is Ok && r->Ok_0@ == plan,
        Err(failure) => r is Err && r->Err_0.failure() == failure,
    }
}

/// Plans the work for the file at `path`, dated by `date_str`, in the index
/// under `target`.
pub fn linker(target: &str, date_str: &str, path: &str, profile: Profile) -> (r: Result<
    LinkPlan,
    LinkError,
>)
    requires
        is_date_key(date_str@),
    ensures
        meets(r, planned(target@, date_str@, path@, profile)),
{
    match parse_date(date_str) {
        Err(e) => Err(LinkError::DateParse(e.description)),
        Ok(date) => match target_path(target, date, path) {
            None => Err(LinkError::NoTargetPath),
            Some(entry) => Ok(
                LinkPlan {
                    directory: directory_for(target, date),
                    entry,
                    source: String::from_str(path),
                    profile,
                },
            ),
        },
    }
}

/// Plans an entry that points to `path`.
pub fn link(target: &str, date_str: &str, path: &str) -> (r: Result<LinkPlan, LinkError>)
    requires
        is_date_key(date_str@),
    ensures
        meets(r, planned(target@, date_str@, path@, Profile::Link)),
{
    linker(target, date_str, path, Profile::Link)
}

/// Plans the removal of the entry for `path`.
pub fn unlink(target: &str, date_str: &str, path: &str) -> (r: Result<LinkPlan, LinkError>)
    requires
        is_date_key(date_str@),
    ensures
        meets(r, planned(target@, date_str@, path@, Profile::Unlink)),
{
    linker(target, date_str, path, Profile::Unlink)
}

/// In every plan owed, the entry stands directly in the plan's directory
/// under the source's final component, and points to the source.
pub proof fn lemma_planned_entry_in_directory(
    target: Seq<char>,
    key: Seq<char>,
    path: Seq<char>,
    profile: Profile,
)
    requires
        is_date_key(key),
        planned(target, key, path, profile) is Ok,
    ensures
        file_name_text(path) is Some,
        planned(target, key, path, profile)->Ok_0.entry == planned(
            target,
            key,
            path,
            profile,
        )->Ok_0.directory + seq!['/'] + file_name_text(path)->Some_0,
        planned(target, key, path, profile)->Ok_0.source == path,
        planned(target, key, path, profile)->Ok_0.profile == profile,
{
    crate::calendar::lemma_reading_bounds(key);
    let date = date_of_key(key)->Some_0;
    crate::index_path::lemma_entry_is_directory_slash_name(
        target,
        date,
        file_name_text(path)->Some_0,
    );
}

/// One step of carrying out a plan.
#[derive(Clone, Copy, Debug, PartialEq, Eq, Structural)]
pub enum Step {
    /// Ask whether the plan's directory exists.
    ProbeDirectory,
    /// Make the directory and its missing ancestors.
    CreateDirectories,
    /// Ask whether anything stands at the entry path.
    ProbeEntry,
    /// Remove what stands at the entry path.
    RemoveEntry,
    /// Put a symbolic link to the source at the entry path.
    CreateLink,
    /// The plan is carried out.
    Finished,
    /// A step failed; what was done before it stays done.
    Failed,
}

/// What a step's executor reports back.
#[derive(Clone, Copy, Debug, PartialEq, Eq, Structural)]
pub enum Outcome {
    /// A probe found something.
    Present,
    /// A probe found nothing.
    Absent,
    /// A change was made.
    Succeeded,
    /// A change could not be made.
    Failed,
}

/// The step that applies a profile.
pub open spec fn profile_step(profile: Profile) -> Step {
    match profile {
        Profile::Link => Step::CreateLink,
        Profile::Unlink => Step::Finished,
    }
}

/// The order of the steps: directory first, stale entry second, profile
/// last; the first failure ends the run, and nothing is undone. An outcome
/// that the step cannot have counts as a failure.
pub open spec fn step_after(profile: Profile, step: Step, outcome: Outcome) -> Step {
    match (step, outcome) {
        (Step::ProbeDirectory, Outcome::Present) => Step::ProbeEntry,
        (Step::ProbeDirectory, Outcome::Absent) => Step::CreateDirectories,
        (Step::CreateDirectories, Outcome::Succeeded) => Step::ProbeEntry,
        (Step::ProbeEntry, Outcome::Present) => Step::RemoveEntry,
        (Step::ProbeEntry, Outcome::Absent) => profile_step(profile),
        (Step::RemoveEntry, Outcome::Succeeded) => profile_step(profile),
        (Step::CreateLink, Outcome::Succeeded) => Step::Finished,
        (Step::Finished, _) => Step::Finished,
        _ => Step::Failed,
    }
}

/// How many steps can still follow `step` at most.
pub open spec fn steps_left(step: Step) -> nat {
    match step {
        Step::ProbeDirectory => 5,
        Step::CreateDirectories => 4,
        Step::ProbeEntry => 3,
        Step::RemoveEntry => 2,
        Step::CreateLink => 1,
        Step::Finished => 0,
        Step::Failed => 0,
    }
}

/// The step every plan starts with.
pub fn first_step() -> (r: Step)
    ensures
        r == Step::ProbeDirectory,
{
    Step::ProbeDirectory
}

/// The step that follows `step`, given how it went.
pub fn next_step(profile: Profile, step: Step, outcome: Outcome) -> (r: Step)
    ensures
        r == step_after(profile, step, outcome),
        steps_left(step) > 0 ==> steps_left(r) < steps_left(step),
        steps_left(step) == 0 ==> r == step,
{
    let apply: Step = match profile {
        Profile::Link => Step::CreateLink,
        Profile::Unlink => Step::Finished,
    };
    match step {
        Step::ProbeDirectory => match outcome {
            Outcome::Present => Step::ProbeEntry,
            Outcome::Absent => Step::CreateDirectories,
            _ => Step::Failed,
        },
        Step::CreateDirectories => match outcome {
            Outcome::Succeeded => Step::ProbeEntry,
            _ => Step::Failed,
        },
        Step::ProbeEntry => match outcome {
            Outcome::Present => Step::RemoveEntry,
            Outcome::Absent => apply,
            _ => Step::Failed,
        },
        Step::RemoveEntry => match outcome {
            Outcome::Succeeded => apply,
            _ => Step::Failed,
        },
        Step::CreateLink => match outcome {
            Outcome::Succeeded => Step::Finished,
            _ => Step::Failed,
        },
        Step::Finished => Step::Finished,
        Step::Failed => Step::Failed,
    }
}

} // verus!
