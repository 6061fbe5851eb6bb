//! What a conversion does in given surroundings, and the laws of that.
//!
//! [`Surroundings`] records how the file system and the converter answer
//! each action of one conversion. Against such a record the course of a conversion is fixed:
//! [`actions`] are the actions it asks for, in order, and [`result`] is how
//! it ends. The laws below are proved of every plan and every record.

use crate::error::ConversionError;
use crate::conversion::{
    actions_left, next_stage, request, Action, ActionView, Conversion, Event, Stage,
};
use crate::paths::{path_parent, path_same};
use crate::plan::{expected_output, plan_for, Plan, PlanView};
use vstd::prelude::*;

verus! {

/// How the surroundings answer during one conversion. An answer that the
/// conversion never asks for plays no part.
#[derive(Debug, Clone, Copy, PartialEq, Eq)]
pub struct Surroundings {
    /// Whether the input exists.
    pub input_exists: bool,
    /// Whether the input is a regular file.
    pub input_is_file: bool,
    /// Whether the output path is an existing directory.
    pub output_is_directory: bool,
    /// Whether creating the output directory succeeds.
    pub directory_created: bool,
    /// The exit code of the converter; `None` where it cannot be started
    /// or reports none.
    pub exit_code: Option<i32>,
    /// Whether the expected file exists once the converter has ended.
    pub generated_exists: bool,
    /// Whether moving the generated file succeeds.
    pub moved: bool,
}

/// What the surroundings report for the action of `stage`.
pub open spec fn report(world: Surroundings, stage: Stage) -> Event {
    match stage {
        Stage::CheckInputExists => Event::Observed(world.input_exists),
        Stage::CheckInputIsFile => Event::Observed(world.input_is_file),
        Stage::CheckOutput => Event::Observed(world.output_is_directory),
        Stage::CreateDirectory => Event::Performed(world.directory_created),
        Stage::Convert => Event::Exited(world.exit_code),
        Stage::LocateGenerated => Event::Observed(world.generated_exists),
        Stage::MoveGenerated => Event::Performed(world.moved),
        Stage::Done(_) => Event::Observed(false),
    }
}

impl Surroundings {
    /// What these surroundings report for the action of `stage`.
    pub fn answer(&self, stage: Stage) -> (event: Event)
        ensures
            event == report(*self, stage),
    {
        match stage {
            Stage::CheckInputExists => Event::Observed(self.input_exists),
            Stage::CheckInputIsFile => Event::Observed(self.input_is_file),
            Stage::CheckOutput => Event::Observed(self.output_is_directory),
            Stage::CreateDirectory => Event::Performed(self.directory_created),
            Stage::Convert => Event::Exited(self.exit_code),
            Stage::LocateGenerated => Event::Observed(self.generated_exists),
            Stage::MoveGenerated => Event::Performed(self.moved),
            Stage::Done(_) => Event::Observed(false),
        }
    }
}

/// The actions that a conversion asks for from `stage` until it is over, in
/// order, when every action is answered by `world`.
pub open spec fn actions_from(plan: PlanView, world: Surroundings, stage: Stage) -> Seq<ActionView>
    decreases actions_left(stage),
{
    if stage is Done {
        Seq::empty()
    } else {
        seq![request(plan, stage)] + actions_from(
            plan,
            world,
            next_stage(plan, stage, report(world, stage)),
        )
    }
}

/// How a conversion that stands at `stage` ends when every action is
/// answered by `world`.
pub open spec fn result_from(plan: PlanView, world: Surroundings, stage: Stage) -> Result<
    (),
    ConversionError,
>
    decreases actions_left(stage),
{
    match stage {
        Stage::Done(result) => result,
        _ => result_from(plan, world, next_stage(plan, stage, report(world, stage))),
    }
}

/// The actions of a whole conversion in `world`, in order.
pub open spec fn actions(plan: PlanView, world: Surroundings) -> Seq<ActionView> {
    actions_from(plan, world, Stage::CheckInputExists)
}

/// How a whole conversion ends in `world`.
pub open spec fn result(plan: PlanView, world: Surroundings) -> Result<(), ConversionError> {
    result_from(plan, world, Stage::CheckInputExists)
}

/// Whether the conversion gets as far as running the converter: the input
/// is a file, the output path is no directory and has a parent, that
/// parent could be created, and the input has text to start the converter
/// with.
pub open spec fn converter_runs(plan: PlanView, world: Surroundings) -> bool {
    &&& world.input_exists
    &&& world.input_is_file
    &&& !world.output_is_directory
    &&& plan.output is Some
    &&& plan.output_dir is Some
    &&& world.directory_created
    &&& plan.input is Some
}

/// The result of a conversion, read off the surroundings: the first check
/// that fails decides, and where none fails the conversion succeeds.
pub open spec fn outcome(plan: PlanView, world: Surroundings) -> Result<(), ConversionError> {
    if !world.input_exists {
        Err(ConversionError::InputNotFound)
    } else if !world.input_is_file {
        Err(ConversionError::InputNotAFile)
    } else if world.output_is_directory {
        Err(ConversionError::OutputIsDirectory)
    } else if plan.output is None || plan.output_dir is None {
        Err(ConversionError::InvalidOutputPath)
    } else if !world.directory_created {
        Err(ConversionError::FilesystemError)
    } else if plan.input is None {
        Err(ConversionError::ExternalToolFailed { exit_code: None })
    } else if world.exit_code != Some(0i32) {
        Err(ConversionError::ExternalToolFailed { exit_code: world.exit_code })
    } else if plan.generated is None || !world.generated_exists {
        Err(ConversionError::OutputNotProduced)
    } else if plan.in_place || world.moved {
        Ok(())
    } else {
        Err(ConversionError::FilesystemError)
    }
}

/// Goes through the conversion that `plan` describes with `world` answering
/// in place of the file system and the converter: nothing is read, written
/// or run. Returns the
/// actions that the conversion asked for, in order, and how it ended.
pub fn rehearse(plan: Plan, world: &Surroundings) -> (run: (
    Vec<Action>,
    Result<(), ConversionError>,
))
    ensures
        run.0.deep_view() == actions(plan@, *world),
        run.1 == result(plan@, *world),
{
    let ghost paths = plan@;
    let mut conversion = Conversion::begin(plan);
    let mut asked: Vec<Action> = Vec::new();
    loop
        invariant
            paths == plan@,
            conversion.plan() == paths,
            asked.deep_view() + actions_from(paths, *world, conversion.stage()) == actions(
                paths,
                *world,
            ),
            result_from(paths, *world, conversion.stage()) == result(paths, *world),
        decreases actions_left(conversion.stage()),
    {
        let stage = conversion.current_stage();
        if let Stage::Done(result) = stage {
            return (asked, result);
        }
        let action = conversion.pending();
        asked.push(action);
        conversion = conversion.advance(world.answer(stage));
    }
}

/// A conversion ends as the first failing check says, and succeeds where
/// none fails.
pub proof fn law_result_is_outcome(plan: PlanView, world: Surroundings)
    ensures
        result(plan, world) == outcome(plan, world),
{
    reveal_with_fuel(result_from, 8);
}

/// The stage that asks for the action at position `position` of a
/// conversion: the stages are passed in one fixed order.
pub open spec fn stage_at(position: int) -> Stage {
    if position <= 0 {
        Stage::CheckInputExists
    } else if position == 1 {
        Stage::CheckInputIsFile
    } else if position == 2 {
        Stage::CheckOutput
    } else if position == 3 {
        Stage::CreateDirectory
    } else if position == 4 {
        Stage::Convert
    } else if position == 5 {
        Stage::LocateGenerated
    } else {
        Stage::MoveGenerated
    }
}

/// How many actions a conversion asks for: one more than the checks and
/// changes that go well before the first one that does not.
pub open spec fn action_count(plan: PlanView, world: Surroundings) -> nat {
    if !world.input_exists {
        1
    } else if !world.input_is_file {
        2
    } else if world.output_is_directory || plan.output is None || plan.output_dir is None {
        3
    } else if !world.directory_created || plan.input is None {
        4
    } else if world.exit_code != Some(0i32) || plan.generated is None {
        5
    } else if !world.generated_exists || plan.in_place {
        6
    } else {
        7
    }
}

/// The actions of a conversion are the first few of a fixed sequence of at
/// most seven, and how many they are is read off the surroundings.
pub proof fn law_actions_in_fixed_order(plan: PlanView, world: Surroundings)
    ensures
        actions(plan, world).len() == action_count(plan, world) <= 7,
        forall|i: int|
            0 <= i < action_count(plan, world) ==> actions(plan, world)[i] == request(
                plan,
                stage_at(i),
            ),
{
    reveal_with_fuel(actions_from, 8);
}

/// A conversion whose input does not exist ends with `InputNotFound`. It has
/// asked whether the input exists and nothing else: nothing was written.
pub proof fn law_missing_input(plan: PlanView, world: Surroundings)
    requires
        !world.input_exists,
    ensures
        result(plan, world) == Err::<(), _>(ConversionError::InputNotFound),
        actions(plan, world) == seq![ActionView::CheckInputExists],
        forall|i: int| 0 <= i < actions(plan, world).len() ==> !actions(plan, world)[i].has_effect(),
{
    reveal_with_fuel(result_from, 3);
    reveal_with_fuel(actions_from, 3);
    assert(actions(plan, world) =~= seq![ActionView::CheckInputExists]);
}

/// A conversion whose input exists but is no regular file, as a directory
/// is none, ends with `InputNotAFile`, and nothing was written.
pub proof fn law_input_not_a_file(plan: PlanView, world: Surroundings)
    requires
        world.input_exists,
        !world.input_is_file,
    ensures
        result(plan, world) == Err::<(), _>(ConversionError::InputNotAFile),
        forall|i: int| 0 <= i < actions(plan, world).len() ==> !actions(plan, world)[i].has_effect(),
{
    reveal_with_fuel(result_from, 4);
    reveal_with_fuel(actions_from, 4);
}

/// A conversion of a regular file to an output path that is an existing
/// directory ends with `OutputIsDirectory`. The converter was not run, and
/// nothing was written.
pub proof fn law_output_is_directory(plan: PlanView, world: Surroundings)
    requires
        world.input_exists,
        world.input_is_file,
        world.output_is_directory,
    ensures
        result(plan, world) == Err::<(), _>(ConversionError::OutputIsDirectory),
        forall|i: int| 0 <= i < actions(plan, world).len() ==> !actions(plan, world)[i].has_effect(),
{
    reveal_with_fuel(result_from, 5);
    reveal_with_fuel(actions_from, 5);
}

/// The converter is run only directly after the output directory was
/// created, with success, and it is run with that directory and the input.
/// It is run at one place only: a conversion runs it at most once.
pub proof fn law_directory_before_converter(plan: PlanView, world: Surroundings, i: int)
    requires
        0 <= i < actions(plan, world).len(),
        actions(plan, world)[i] is RunConverter,
    ensures
        converter_runs(plan, world),
        i == 4,
        actions(plan, world)[i - 1] == ActionView::CreateDirectories(plan.output_dir.unwrap()),
        actions(plan, world)[i] == request(plan, Stage::Convert),
{
    reveal_with_fuel(actions_from, 8);
}

/// The converter is run exactly where every check before it passes.
pub proof fn law_converter_runs(plan: PlanView, world: Surroundings)
    ensures
        converter_runs(plan, world) <==> exists|i: int|
            0 <= i < actions(plan, world).len() && actions(plan, world)[i] is RunConverter,
{
    reveal_with_fuel(actions_from, 8);
    if converter_runs(plan, world) {
        assert(actions(plan, world)[4] is RunConverter);
    }
}

/// Where the converter runs and ends with anything but exit code zero, the
/// conversion ends with `ExternalToolFailed` and that exit code, and
/// nothing is moved.
pub proof fn law_converter_failed(plan: PlanView, world: Surroundings)
    requires
        converter_runs(plan, world),
        world.exit_code != Some(0i32),
    ensures
        result(plan, world) == Err::<(), _>(
            ConversionError::ExternalToolFailed { exit_code: world.exit_code },
        ),
        forall|i: int| 0 <= i < actions(plan, world).len() ==> !(actions(plan, world)[i] is Rename),
{
    reveal_with_fuel(result_from, 8);
    reveal_with_fuel(actions_from, 8);
}

/// Where the converter runs and ends with exit code zero, but the file it
/// was expected to write is not there, the conversion ends with
/// `OutputNotProduced`, and nothing is moved.
pub proof fn law_output_not_produced(plan: PlanView, world: Surroundings)
    requires
        converter_runs(plan, world),
        world.exit_code == Some(0i32),
        plan.generated is None || !world.generated_exists,
    ensures
        result(plan, world) == Err::<(), _>(ConversionError::OutputNotProduced),
        forall|i: int| 0 <= i < actions(plan, world).len() ==> !(actions(plan, world)[i] is Rename),
{
    reveal_with_fuel(result_from, 8);
    reveal_with_fuel(actions_from, 8);
}

/// Where the converter writes its file at the requested output path,
/// nothing is moved, whatever else happens. If the converter runs, ends
/// with exit code zero and its file is there, the conversion succeeds, and
/// the last thing it did was to see that the file is there.
pub proof fn law_in_place_moves_nothing(plan: PlanView, world: Surroundings)
    requires
        plan.consistent(),
        plan.in_place,
    ensures
        forall|i: int| 0 <= i < actions(plan, world).len() ==> !(actions(plan, world)[i] is Rename),
        converter_runs(plan, world) && world.exit_code == Some(0i32) && world.generated_exists ==> {
            &&& result(plan, world) == Ok::<(), ConversionError>(())
            &&& actions(plan, world).last() == ActionView::CheckExists(plan.generated.unwrap())
        },
{
    reveal_with_fuel(result_from, 8);
    reveal_with_fuel(actions_from, 8);
}

/// Where the generated file has to be moved, the move is the last action,
/// it takes the generated file to the requested output path, and the
/// conversion succeeds exactly if the move does.
pub proof fn law_move_is_last(plan: PlanView, world: Surroundings, i: int)
    requires
        0 <= i < actions(plan, world).len(),
        actions(plan, world)[i] is Rename,
    ensures
        i == actions(plan, world).len() - 1,
        plan.generated is Some,
        plan.output is Some,
        !plan.in_place,
        actions(plan, world)[i] == (ActionView::Rename {
            from: plan.generated.unwrap(),
            to: plan.output.unwrap(),
        }),
        result(plan, world) is Ok <==> world.moved,
{
    reveal_with_fuel(result_from, 8);
    reveal_with_fuel(actions_from, 8);
}

/// Where the converter runs, ends with exit code zero and leaves its file
/// at the expected path, and that is not the requested output path, the
/// file is moved there: if the move succeeds the conversion succeeds, the
/// move was its last action, and the converter was run once.
pub proof fn law_generated_is_moved(plan: PlanView, world: Surroundings)
    requires
        converter_runs(plan, world),
        world.exit_code == Some(0i32),
        plan.generated is Some,
        world.generated_exists,
        !plan.in_place,
        world.moved,
    ensures
        result(plan, world) == Ok::<(), ConversionError>(()),
        actions(plan, world).len() == 7,
        actions(plan, world)[4] is RunConverter,
        actions(plan, world)[5] == ActionView::CheckExists(plan.generated.unwrap()),
        actions(plan, world)[6] == (ActionView::Rename {
            from: plan.generated.unwrap(),
            to: plan.output.unwrap(),
        }),
{
    reveal_with_fuel(result_from, 8);
    reveal_with_fuel(actions_from, 8);
}

/// The plan for `input` and `output` is in place exactly where the file
/// that the converter is expected to write and `output` are the same path.
pub proof fn law_in_place_is_same_path(input: Seq<char>, output: Seq<char>)
    ensures
        plan_for(Some(input), Some(output)).consistent(),
        plan_for(Some(input), Some(output)).in_place <==> {
            &&& path_parent(output) matches Some(dir)
            &&& expected_output(input, dir) matches Some(path)
            &&& path_same(path, output)
        },
{
}

/// A path that cannot be given as text ends the conversion only after the
/// checks that need no text, and the converter is never run. Where those
/// checks pass, an output without text or without parent ends the
/// conversion with `InvalidOutputPath` before anything is written, and an
/// input without text ends it with `ExternalToolFailed` once the output
/// directory is there.
pub proof fn law_paths_without_text(plan: PlanView, world: Surroundings)
    requires
        plan.consistent(),
        plan.input is None || plan.output is None,
    ensures
        result(plan, world) is Err,
        forall|i: int|
            0 <= i < actions(plan, world).len() ==> !(actions(plan, world)[i] is RunConverter),
        !world.input_exists ==> result(plan, world) == Err::<(), _>(
            ConversionError::InputNotFound,
        ),
        world.input_exists && !world.input_is_file ==> result(plan, world) == Err::<(), _>(
            ConversionError::InputNotAFile,
        ),
        world.input_exists && world.input_is_file && world.output_is_directory ==> result(
            plan,
            world,
        ) == Err::<(), _>(ConversionError::OutputIsDirectory),
        world.input_exists && world.input_is_file && !world.output_is_directory ==> {
            if plan.output_dir is None {
                &&& result(plan, world) == Err::<(), _>(ConversionError::InvalidOutputPath)
                &&& actions(plan, world).len() == 3
            } else if !world.directory_created {
                result(plan, world) == Err::<(), _>(ConversionError::FilesystemError)
            } else {
                result(plan, world) == Err::<(), _>(
                    ConversionError::ExternalToolFailed { exit_code: None },
                )
            }
        },
{
    reveal_with_fuel(result_from, 8);
    reveal_with_fuel(actions_from, 8);
}

} // verus!
