//! The course of one conversion: what is asked of the surroundings, in what
//! order, and what each answer leads to.
//!
//! A [`Conversion`] reads, writes and runs nothing itself. It names the next
//! [`Action`]; the caller performs it and reports the [`Event`] that came of
//! it; the conversion moves to its next [`Stage`]. It ends in
//! [`Stage::Done`] after at most seven actions.
//!
//! The caller holds the two paths it wants converted, and the first three
//! actions ask about those: they need no text, so they come first whatever
//! the paths are.

use crate::error::ConversionError;
use crate::plan::{Plan, PlanView};
use vstd::prelude::*;

verus! {

/// Where a conversion stands: what is being asked, or how it ended.
#[derive(Debug, Clone, Copy, PartialEq, Eq)]
pub enum Stage {
    /// Asking whether the input exists.
    CheckInputExists,
    /// Asking whether the input is a regular file.
    CheckInputIsFile,
    /// Asking whether the output path is an existing directory.
    CheckOutput,
    /// Creating the output directory and its missing ancestors.
    CreateDirectory,
    /// Running the converter and waiting for it to end.
    Convert,
    /// Asking whether the file that the converter should have written exists.
    LocateGenerated,
    /// Moving the generated file to the requested output path.
    MoveGenerated,
    /// Over, with this result.
    Done(Result<(), ConversionError>),
}

/// What came of an action.
#[derive(Debug, Clone, Copy, PartialEq, Eq)]
pub enum Event {
    /// The answer to a question about a path.
    Observed(bool),
    /// Whether a change to the file system succeeded.
    Performed(bool),
    /// The converter's exit code. `None` where it could not be started or
    /// ended without reporting one.
    Exited(Option<i32>),
}

/// What the caller is to do next.
#[derive(Debug, PartialEq, Eq)]
pub enum Action {
    /// Report whether the input path exists.
    CheckInputExists,
    /// Report whether the input path is a regular file.
    CheckInputIsFile,
    /// Report whether the output path is an existing directory.
    CheckOutputIsDirectory,
    /// Create the directory and every missing ancestor of it.
    CreateDirectories(String),
    /// Run `program` with `arguments`, wait for it, and report its exit code.
    RunConverter { program: String, arguments: Vec<String> },
    /// Report whether the path exists.
    CheckExists(String),
    /// Move the file at `from` to `to`.
    Rename { from: String, to: String },
    /// Nothing more: the conversion is over with this result.
    Finish(Result<(), ConversionError>),
}

/// An [`Action`] as mathematical text.
pub enum ActionView {
    CheckInputExists,
    CheckInputIsFile,
    CheckOutputIsDirectory,
    CreateDirectories(Seq<char>),
    RunConverter { program: Seq<char>, arguments: Seq<Seq<char>> },
    CheckExists(Seq<char>),
    Rename { from: Seq<char>, to: Seq<char> },
    Finish(Result<(), ConversionError>),
}

impl View for Action {
    type V = ActionView;

    open spec fn view(&self) -> ActionView {
        match self {
            Action::CheckInputExists => ActionView::CheckInputExists,
            Action::CheckInputIsFile => ActionView::CheckInputIsFile,
            Action::CheckOutputIsDirectory => ActionView::CheckOutputIsDirectory,
            Action::CreateDirectories(path) => ActionView::CreateDirectories(path@),
            Action::RunConverter { program, arguments } => ActionView::RunConverter {
                program: program@,
                arguments: arguments.deep_view(),
            },
            Action::CheckExists(path) => ActionView::CheckExists(path@),
            Action::Rename { from, to } => ActionView::Rename { from: from@, to: to@ },
            Action::Finish(result) => ActionView::Finish(*result),
        }
    }
}

impl DeepView for Action {
    type V = ActionView;

    open spec fn deep_view(&self) -> ActionView {
        self@
    }
}

impl ActionView {
    /// Whether the action changes anything outside the conversion: the file
    /// system, or whatever the converter does.
    pub open spec fn has_effect(self) -> bool {
        self is CreateDirectories || self is RunConverter || self is Rename
    }
}

/// The name under which the converter is looked up on the search path.
pub open spec fn converter_program() -> Seq<char> {
    "soffice"@
}

/// The converter's arguments: run headless, convert to PDF, write into
/// `output_dir`, read `input`.
pub open spec fn converter_arguments(output_dir: Seq<char>, input: Seq<char>) -> Seq<Seq<char>> {
    seq!["--headless"@, "--convert-to"@, "pdf"@, "--outdir"@, output_dir, input]
}

/// Whether `event` is the kind of report that `stage` waits for.
pub open spec fn fits(stage: Stage, event: Event) -> bool {
    match stage {
        Stage::CheckInputExists | Stage::CheckInputIsFile | Stage::CheckOutput
        | Stage::LocateGenerated => event is Observed,
        Stage::CreateDirectory | Stage::MoveGenerated => event is Performed,
        Stage::Convert => event is Exited,
        Stage::Done(_) => false,
    }
}

/// Whether `plan` holds the paths that the action of `stage` names.
pub open spec fn admits(plan: PlanView, stage: Stage) -> bool {
    match stage {
        Stage::CreateDirectory => plan.output is Some && plan.output_dir is Some,
        Stage::Convert => plan.output is Some && plan.output_dir is Some && plan.input is Some,
        Stage::LocateGenerated | Stage::MoveGenerated => plan.output is Some
            && plan.generated is Some,
        _ => true,
    }
}

/// How many actions can at most still be asked for from `stage` on.
pub open spec fn actions_left(stage: Stage) -> nat {
    match stage {
        Stage::CheckInputExists => 7,
        Stage::CheckInputIsFile => 6,
        Stage::CheckOutput => 5,
        Stage::CreateDirectory => 4,
        Stage::Convert => 3,
        Stage::LocateGenerated => 2,
        Stage::MoveGenerated => 1,
        Stage::Done(_) => 0,
    }
}

/// The action that `stage` asks for.
pub open spec fn request(plan: PlanView, stage: Stage) -> ActionView
    recommends
        admits(plan, stage),
{
    match stage {
        Stage::CheckInputExists => ActionView::CheckInputExists,
        Stage::CheckInputIsFile => ActionView::CheckInputIsFile,
        Stage::CheckOutput => ActionView::CheckOutputIsDirectory,
        Stage::CreateDirectory => ActionView::CreateDirectories(plan.output_dir.unwrap()),
        Stage::Convert => ActionView::RunConverter {
            program: converter_program(),
            arguments: converter_arguments(plan.output_dir.unwrap(), plan.input.unwrap()),
        },
        Stage::LocateGenerated => ActionView::CheckExists(plan.generated.unwrap()),
        Stage::MoveGenerated => ActionView::Rename {
            from: plan.generated.unwrap(),
            to: plan.output.unwrap(),
        },
        Stage::Done(result) => ActionView::Finish(result),
    }
}

/// The stage that follows `stage` once `event` is reported. A report that
/// `stage` does not wait for changes nothing.
///
/// A path without text fails where its text is first needed: the output
/// when its parent is looked for, the input when the converter is to be
/// started with it.
pub open spec fn next_stage(plan: PlanView, stage: Stage, event: Event) -> Stage {
    match (stage, event) {
        (Stage::CheckInputExists, Event::Observed(exists)) => if exists {
            Stage::CheckInputIsFile
        } else {
            Stage::Done(Err(ConversionError::InputNotFound))
        },
        (Stage::CheckInputIsFile, Event::Observed(is_file)) => if is_file {
            Stage::CheckOutput
        } else {
            Stage::Done(Err(ConversionError::InputNotAFile))
        },
        (Stage::CheckOutput, Event::Observed(is_directory)) => if is_directory {
            Stage::Done(Err(ConversionError::OutputIsDirectory))
        } else if plan.output is Some && plan.output_dir is Some {
            Stage::CreateDirectory
        } else {
            Stage::Done(Err(ConversionError::InvalidOutputPath))
        },
        (Stage::CreateDirectory, Event::Performed(created)) => if !created {
            Stage::Done(Err(ConversionError::FilesystemError))
        } else if plan.input is Some {
            Stage::Convert
        } else {
            Stage::Done(Err(ConversionError::ExternalToolFailed { exit_code: None }))
        },
        (Stage::Convert, Event::Exited(exit_code)) => if exit_code != Some(0i32) {
            Stage::Done(Err(ConversionError::ExternalToolFailed { exit_code }))
        } else if plan.generated is Some {
            Stage::LocateGenerated
        } else {
            Stage::Done(Err(ConversionError::OutputNotProduced))
        },
        (Stage::LocateGenerated, Event::Observed(exists)) => if !exists {
            Stage::Done(Err(ConversionError::OutputNotProduced))
        } else if plan.in_place {
            Stage::Done(Ok(()))
        } else {
            Stage::MoveGenerated
        },
        (Stage::MoveGenerated, Event::Performed(moved)) => if moved {
            Stage::Done(Ok(()))
        } else {
            Stage::Done(Err(ConversionError::FilesystemError))
        },
        _ => stage,
    }
}

/// A report that fits takes the conversion nearer to its end, and one that
/// does not fit changes nothing. Either way the stage that follows asks
/// only for paths that the plan holds.
pub proof fn law_next_stage_is_admitted(plan: PlanView, stage: Stage, event: Event)
    requires
        admits(plan, stage),
    ensures
        admits(plan, next_stage(plan, stage, event)),
        fits(stage, event) ==> actions_left(next_stage(plan, stage, event)) < actions_left(stage),
        !fits(stage, event) ==> next_stage(plan, stage, event) == stage,
{
}

/// One conversion under way: its paths and the stage it has reached.
#[derive(Debug)]
pub struct Conversion {
    plan: Plan,
    stage: Stage,
}

impl Conversion {
    #[verifier::type_invariant]
    spec fn well_formed(self) -> bool {
        admits(self.plan@, self.stage)
    }

    /// The paths of this conversion.
    pub closed spec fn plan(self) -> PlanView {
        self.plan@
    }

    /// The stage this conversion has reached.
    pub closed spec fn stage(self) -> Stage {
        self.stage
    }

    /// Starts the conversion that `plan` describes: nothing has been asked
    /// yet, and the first question is whether the input exists.
    pub fn begin(plan: Plan) -> (conversion: Conversion)
        ensures
            conversion.plan() == plan@,
            conversion.stage() == Stage::CheckInputExists,
    {
        Conversion { plan, stage: Stage::CheckInputExists }
    }

    /// The stage this conversion has reached.
    pub fn current_stage(&self) -> (stage: Stage)
        ensures
            stage == self.stage(),
            admits(self.plan(), stage),
    {
        proof {
            use_type_invariant(self);
        }
        self.stage
    }

    /// The action to perform now.
    pub fn pending(&self) -> (action: Action)
        ensures
            action@ == request(self.plan(), self.stage()),
    {
        proof {
            use_type_invariant(self);
        }
        match self.stage {
            Stage::CheckInputExists => Action::CheckInputExists,
            Stage::CheckInputIsFile => Action::CheckInputIsFile,
            Stage::CheckOutput => Action::CheckOutputIsDirectory,
            Stage::CreateDirectory => {
                let dir = self.plan.output_dir.as_ref().unwrap();
                Action::CreateDirectories(dir.clone())
            },
            Stage::Convert => {
                let dir = self.plan.output_dir.as_ref().unwrap();
                let input = self.plan.input.as_ref().unwrap();
                Action::RunConverter {
                    program: "soffice".to_owned(),
                    arguments: Self::arguments(dir, input),
                }
            },
            Stage::LocateGenerated => {
                let path = self.plan.generated.as_ref().unwrap();
                Action::CheckExists(path.clone())
            },
            Stage::MoveGenerated => {
                let path = self.plan.generated.as_ref().unwrap();
                let wanted = self.plan.output.as_ref().unwrap();
                Action::Rename { from: path.clone(), to: wanted.clone() }
            },
            Stage::Done(result) => Action::Finish(result),
        }
    }

    /// The conversion after `event` was reported for the pending action.
    pub fn advance(self, event: Event) -> (next: Conversion)
        ensures
            next.plan() == self.plan(),
            next.stage() == next_stage(self.plan(), self.stage(), event),
    {
        proof {
            use_type_invariant(&self);
        }
        let stage = match (self.stage, event) {
            (Stage::CheckInputExists, Event::Observed(exists)) => if exists {
                Stage::CheckInputIsFile
            } else {
                Stage::Done(Err(ConversionError::InputNotFound))
            },
            (Stage::CheckInputIsFile, Event::Observed(is_file)) => if is_file {
                Stage::CheckOutput
            } else {
                Stage::Done(Err(ConversionError::InputNotAFile))
            },
            (Stage::CheckOutput, Event::Observed(is_directory)) => if is_directory {
                Stage::Done(Err(ConversionError::OutputIsDirectory))
            } else if self.plan.output.is_some() && self.plan.output_dir.is_some() {
                Stage::CreateDirectory
            } else {
                Stage::Done(Err(ConversionError::InvalidOutputPath))
            },
            (Stage::CreateDirectory, Event::Performed(created)) => if !created {
                Stage::Done(Err(ConversionError::FilesystemError))
            } else if self.plan.input.is_some() {
                Stage::Convert
            } else {
                Stage::Done(Err(ConversionError::ExternalToolFailed { exit_code: None }))
            },
            (Stage::Convert, Event::Exited(exit_code)) => match exit_code {
                Some(0) => if self.plan.generated.is_some() {
                    Stage::LocateGenerated
                } else {
                    Stage::Done(Err(ConversionError::OutputNotProduced))
                },
                _ => Stage::Done(Err(ConversionError::ExternalToolFailed { exit_code })),
            },
            (Stage::LocateGenerated, Event::Observed(exists)) => if !exists {
                Stage::Done(Err(ConversionError::OutputNotProduced))
            } else if self.plan.in_place {
                Stage::Done(Ok(()))
            } else {
                Stage::MoveGenerated
            },
            (Stage::MoveGenerated, Event::Performed(moved)) => if moved {
                Stage::Done(Ok(()))
            } else {
                Stage::Done(Err(ConversionError::FilesystemError))
            },
            (stage, _) => stage,
        };
        Conversion { plan: self.plan, stage }
    }

    /// The converter's arguments for writing into `output_dir` and reading
    /// `input`.
    fn arguments(output_dir: &String, input: &String) -> (arguments: Vec<String>)
        ensures
            arguments.deep_view() == converter_arguments(output_dir@, input@),
    {
        let mut arguments: Vec<String> = Vec::new();
        arguments.push("--headless".to_owned());
        arguments.push("--convert-to".to_owned());
        arguments.push("pdf".to_owned());
        arguments.push("--outdir".to_owned());
        arguments.push(output_dir.clone());
        arguments.push(input.clone());
        assert(arguments.deep_view() =~= converter_arguments(output_dir@, input@));
        arguments
    }
}

} // verus!
