//! The directory target adapter: what is done with a file event to bring the
//! file into a target directory, and the event that is emitted afterwards.

use vstd::prelude::*;
use crate::event::{FileEvent, FileEventView};
use crate::paths::{file_name, join, path_file_name, path_join};
use crate::settings::{DirectoryTarget, LocalTargetMethod};

verus! {

/// The operation on the file system that brings one file into a target
/// directory.
#[derive(Debug, PartialEq, Eq)]
pub struct Materialization {
    pub method: LocalTargetMethod,
    /// The file as the event names it.
    pub source_path: String,
    /// Where the file is to appear. For a symbolic link this is the link, and
    /// what it refers to is `source_path` itself, not a copy of the content.
    pub target_path: String,
}

/// The mathematical value of a [`Materialization`].
pub ghost struct MaterializationView {
    pub method: LocalTargetMethod,
    pub source_path: Seq<char>,
    pub target_path: Seq<char>,
}

impl View for Materialization {
    type V = MaterializationView;

    open spec fn view(&self) -> MaterializationView {
        MaterializationView {
            method: self.method,
            source_path: self.source_path@,
            target_path: self.target_path@,
        }
    }
}

/// What a target does with one event: the operation to attempt, and the event
/// to emit once it has been attempted, whether or not it succeeded.
#[derive(Debug, PartialEq, Eq)]
pub struct TargetStep {
    pub operation: Materialization,
    pub emitted: FileEvent,
}

/// The mathematical value of a [`TargetStep`].
pub ghost struct TargetStepView {
    pub operation: MaterializationView,
    pub emitted: FileEventView,
}

impl View for TargetStep {
    type V = TargetStepView;

    open spec fn view(&self) -> TargetStepView {
        TargetStepView { operation: self.operation@, emitted: self.emitted@ }
    }
}

/// The step of `target` on `event` where the file is to appear at
/// `target_path`: the target's method is applied from the event's path to the
/// target path, and the emitted event names the target as its source and the
/// target path as its path, keeping the file's identifier.
pub open spec fn step_to(target: &DirectoryTarget, event: FileEventView, target_path: Seq<char>)
    -> TargetStepView {
    TargetStepView {
        operation: MaterializationView {
            method: target.method,
            source_path: event.path,
            target_path,
        },
        emitted: FileEventView {
            file_id: event.file_id,
            source_name: target.name@,
            path: target_path,
        },
    }
}

/// The step of `target` on `event`: the target path is the target's
/// directory joined with the file name of the event's path. `None` where the
/// event's path has no file name.
pub open spec fn planned_step(target: &DirectoryTarget, event: FileEventView) -> Option<
    TargetStepView,
> {
    match path_file_name(event.path) {
        Some(name) => Some(step_to(target, event, path_join(target.directory@, name))),
        None => None,
    }
}

/// Builds the step of `target` on `event` for a given target path.
pub fn plan_step_to(target: &DirectoryTarget, event: &FileEvent, target_path: String) -> (step:
    TargetStep)
    ensures
        step@ == step_to(target, event@, target_path@),
{
    TargetStep {
        operation: Materialization {
            method: target.method,
            source_path: event.path.clone(),
            target_path: target_path.clone(),
        },
        emitted: FileEvent {
            file_id: event.file_id,
            source_name: target.name.clone(),
            path: target_path,
        },
    }
}

/// Plans what `target` does with `event`. `None` exactly where the event's
/// path has no file name to carry over into the target directory.
pub fn plan_step(target: &DirectoryTarget, event: &FileEvent) -> (step: Option<TargetStep>)
    ensures
        match step {
            Some(s) => planned_step(target, event@) == Some(s@),
            None => planned_step(target, event@).is_none(),
        },
{
    match file_name(event.path.as_str()) {
        Some(name) => {
            let target_path = join(target.directory.as_str(), name.as_str());
            Some(plan_step_to(target, event, target_path))
        },
        None => None,
    }
}

/// What follows the attempt of a step's operation.
#[derive(Debug, PartialEq, Eq)]
pub struct Emission {
    /// The code to log the failure under, where the operation failed.
    pub failure: Option<TargetErrorCode>,
    /// The event to emit.
    pub event: FileEvent,
}

impl TargetStep {
    /// Concludes the step once its operation has been attempted. The step's
    /// event is emitted whether or not the operation succeeded; a failure is
    /// logged under the code of the step's method and the stream goes on.
    pub fn conclude(self, succeeded: bool) -> (emission: Emission)
        ensures
            emission.event@ == self.emitted@,
            emission.failure == if succeeded {
                None
            } else {
                Some(failure_code_of(self.operation.method))
            },
    {
        let failure = if succeeded {
            None
        } else {
            Some(failure_code(self.operation.method))
        };
        Emission { failure, event: self.emitted }
    }
}

/// The stable codes under which a failed materialisation is logged.
#[derive(Clone, Copy, Debug, PartialEq, Eq, Structural)]
pub enum TargetErrorCode {
    /// Copying failed.
    E01005,
    /// Hard-linking failed.
    E01004,
    /// Symbolic linking failed.
    E01007,
}

/// The code of a failure of `method`.
pub open spec fn failure_code_of(method: LocalTargetMethod) -> TargetErrorCode {
    match method {
        LocalTargetMethod::Copy => TargetErrorCode::E01005,
        LocalTargetMethod::Hardlink => TargetErrorCode::E01004,
        LocalTargetMethod::Symlink => TargetErrorCode::E01007,
    }
}

/// The code under which a failure of `method` is logged.
pub fn failure_code(method: LocalTargetMethod) -> (code: TargetErrorCode)
    ensures
        code == failure_code_of(method),
{
    match method {
        LocalTargetMethod::Copy => TargetErrorCode::E01005,
        LocalTargetMethod::Hardlink => TargetErrorCode::E01004,
        LocalTargetMethod::Symlink => TargetErrorCode::E01007,
    }
}

/// Each method has a failure code of its own, and the codes read differently
/// in a log line.
pub proof fn law_failure_codes_differ(a: LocalTargetMethod, b: LocalTargetMethod)
    requires
        a != b,
    ensures
        failure_code_of(a) != failure_code_of(b),
        failure_code_of(a).text() != failure_code_of(b).text(),
{
    reveal_strlit("E01005");
    reveal_strlit("E01004");
    reveal_strlit("E01007");
    assert("E01005"@[5] == '5');
    assert("E01004"@[5] == '4');
    assert("E01007"@[5] == '7');
}

impl TargetErrorCode {
    /// The code as it is written in a log line.
    pub open spec fn text(&self) -> Seq<char> {
        match self {
            TargetErrorCode::E01005 => "E01005"@,
            TargetErrorCode::E01004 => "E01004"@,
            TargetErrorCode::E01007 => "E01007"@,
        }
    }

    /// The code as it is written in a log line.
    pub fn as_str(&self) -> (text: &'static str)
        ensures
            text@ == self.text(),
    {
        match self {
            TargetErrorCode::E01005 => "E01005",
            TargetErrorCode::E01004 => "E01004",
            TargetErrorCode::E01007 => "E01007",
        }
    }
}

} // verus!
