//! How a platform replaces a document so that no reader ever sees a part of
//! it: the steps, their order, and what each leaves on disk.

use vstd::prelude::*;
use crate::system::Failure;

verus! {

/// The three files of a replacement.
#[derive(Debug, Clone, Copy, PartialEq, Eq, Structural)]
pub enum Place {
    /// The document itself.
    Document,
    /// Its sibling that takes the new content first.
    Staging,
    /// Its sibling that keeps the old content until the new is in place.
    Backup,
}

/// The steps of a replacement, in their order.
#[derive(Debug, Clone, Copy, PartialEq, Eq, Structural)]
pub enum Step {
    /// Create the staging file, give it the document's permissions, write
    /// the new content to it and flush it.
    Stage,
    /// Rename the document to the backup file.
    Park,
    /// Rename the staging file to the document.
    Promote,
    /// Remove the backup file.
    Discard,
}

/// What to do after a step.
#[derive(Debug)]
pub enum Next {
    /// Take this step.
    Take(Step),
    /// Stop with this result.
    Stop(Result<(), Failure>),
}

/// What is on disk at the three places: the content of each file that
/// exists.
pub type Files = Map<Place, Seq<u8>>;

impl Place {
    /// The extension that tells the place from the document, which keeps
    /// its own.
    pub fn extension(self) -> (extension: Option<&'static str>)
        ensures
            match self {
                Place::Document => extension is None,
                Place::Staging => extension matches Some(text) && text@ == "new"@,
                Place::Backup => extension matches Some(text) && text@ == "old"@,
            },
    {
        match self {
            Place::Document => None,
            Place::Staging => Some("new"),
            Place::Backup => Some("old"),
        }
    }
}

impl Step {
    /// The step that begins a replacement.
    pub fn first() -> (step: Step)
        ensures
            step == Step::Stage,
    {
        Step::Stage
    }

    /// The step that follows this one, if one does.
    pub open spec fn following(self) -> Option<Step> {
        match self {
            Step::Stage => Some(Step::Park),
            Step::Park => Some(Step::Promote),
            Step::Promote => Some(Step::Discard),
            Step::Discard => None,
        }
    }

    /// The number of the step in the order of the steps.
    pub open spec fn number(self) -> nat {
        match self {
            Step::Stage => 0,
            Step::Park => 1,
            Step::Promote => 2,
            Step::Discard => 3,
        }
    }

    /// The step with the number `number`; the last for any greater number.
    pub open spec fn at(number: nat) -> Step {
        if number == 0 {
            Step::Stage
        } else if number == 1 {
            Step::Park
        } else if number == 2 {
            Step::Promote
        } else {
            Step::Discard
        }
    }

    /// What to do after this step has ended with `outcome`: the following
    /// step after a success, or success after the last; after a failure
    /// nothing more, and the failure is the result.
    pub fn proceed(self, outcome: Result<(), Failure>) -> (next: Next)
        ensures
            match outcome {
                Err(failure) => next == Next::Stop(Err(failure)),
                Ok(_) => match self.following() {
                    Some(step) => next == Next::Take(step),
                    None => next == Next::Stop(Ok(())),
                },
            },
    {
        match outcome {
            Err(failure) => Next::Stop(Err(failure)),
            Ok(()) => match self {
                Step::Stage => Next::Take(Step::Park),
                Step::Park => Next::Take(Step::Promote),
                Step::Promote => Next::Take(Step::Discard),
                Step::Discard => Next::Stop(Ok(())),
            },
        }
    }

    /// The step can be taken on `files`: staging needs a document and no
    /// staging file, a rename needs its source, a removal its file.
    pub open spec fn can_run(self, files: Files) -> bool {
        match self {
            Step::Stage => files.contains_key(Place::Document) && !files.contains_key(
                Place::Staging,
            ),
            Step::Park => files.contains_key(Place::Document),
            Step::Promote => files.contains_key(Place::Staging),
            Step::Discard => files.contains_key(Place::Backup),
        }
    }

    /// What is on disk after the step has been taken on `files` with the
    /// new content `data`. A rename moves the content and takes the place
    /// of what was at its target.
    pub open spec fn run(self, files: Files, data: Seq<u8>) -> Files {
        match self {
            Step::Stage => files.insert(Place::Staging, data),
            Step::Park => files.remove(Place::Document).insert(
                Place::Backup,
                files[Place::Document],
            ),
            Step::Promote => files.remove(Place::Staging).insert(
                Place::Document,
                files[Place::Staging],
            ),
            Step::Discard => files.remove(Place::Backup),
        }
    }
}

/// What is on disk after the first `count` steps of a replacement.
pub open spec fn after(files: Files, data: Seq<u8>, count: nat) -> Files
    decreases count,
{
    if count == 0 {
        files
    } else {
        Step::at((count - 1) as nat).run(after(files, data, (count - 1) as nat), data)
    }
}

/// A replacement never shows a part of a document. Begun on a document with
/// the content `old` and no staging file, and stopped after any number of
/// its four steps, it leaves the document with `old` in full or with `data`
/// in full, or, between the two renames only, absent. As long as the
/// document does not hold `data`, `old` is kept in full, in the document or
/// in the backup file, and after staging `data` stands in full in the
/// staging file. Every step can be taken when its turn comes, and after the
/// last the document holds `data` and neither sibling is left.
pub proof fn law_replacement(files: Files, old: Seq<u8>, data: Seq<u8>, count: nat)
    requires
        files.contains_key(Place::Document),
        files[Place::Document] == old,
        !files.contains_key(Place::Staging),
        count <= 4,
    ensures
        ({
            let now = after(files, data, count);
            &&& now.contains_key(Place::Document) ==> now[Place::Document] == old
                || now[Place::Document] == data
            &&& !now.contains_key(Place::Document) ==> count == 2
            &&& count < 3 ==> (now.contains_key(Place::Document) && now[Place::Document] == old)
                || (now.contains_key(Place::Backup) && now[Place::Backup] == old)
            &&& 1 <= count < 3 ==> now.contains_key(Place::Staging) && now[Place::Staging] == data
            &&& count >= 3 ==> now.contains_key(Place::Document) && now[Place::Document] == data
            &&& count == 4 ==> !now.contains_key(Place::Staging) && !now.contains_key(Place::Backup)
            &&& count == 0 ==> Step::Stage.can_run(now)
            &&& count == 1 ==> Step::Park.can_run(now)
            &&& count == 2 ==> Step::Promote.can_run(now)
            &&& count == 3 ==> Step::Discard.can_run(now)
        }),
{
    reveal_with_fuel(after, 5);
}

/// The steps follow one another in their order, and only the last has none
/// after it.
pub proof fn law_order(step: Step)
    ensures
        step.following() matches Some(next) ==> next.number() == step.number() + 1,
        step.following() is None <==> step == Step::Discard,
        Step::at(step.number()) == step,
        Step::at(0) == Step::Stage,
{
}

} // verus!
