//! The paths of one conversion, worked out before anything is touched.

use crate::paths::{
    file_stem_of, join, parent_of, path_file_stem, path_join, path_parent, path_same, same_path,
};
use vstd::prelude::*;
use vstd::string::StringExecFns;

verus! {

/// What is put behind the stem of the input to name the file that the
/// converter writes.
pub open spec fn generated_suffix() -> Seq<char> {
    ".pdf"@
}

/// The file that the converter is expected to write when it converts
/// `input` into the directory `output_dir`: in `output_dir`, the file whose
/// name is the stem of `input` followed by `.pdf`. The stem is the file
/// name of `input` without its last extension, so `my.report.docx` gives
/// `my.report.pdf`. `None` where `input` has no stem.
pub open spec fn expected_output(input: Seq<char>, output_dir: Seq<char>) -> Option<Seq<char>> {
    match path_file_stem(input) {
        Some(stem) => Some(path_join(output_dir, stem + generated_suffix())),
        None => None,
    }
}

/// The paths of one conversion, as mathematical text.
pub struct PlanView {
    pub input: Option<Seq<char>>,
    pub output: Option<Seq<char>>,
    pub output_dir: Option<Seq<char>>,
    pub generated: Option<Seq<char>>,
    pub in_place: bool,
}

/// The plan for converting `input` to `output`, where `None` stands for a
/// path that cannot be given as text.
pub open spec fn plan_for(input: Option<Seq<char>>, output: Option<Seq<char>>) -> PlanView {
    let output_dir = match output {
        Some(path) => path_parent(path),
        None => None,
    };
    let generated = match (input, output_dir) {
        (Some(path), Some(dir)) => expected_output(path, dir),
        _ => None,
    };
    PlanView {
        input,
        output,
        output_dir,
        generated,
        in_place: match (generated, output) {
            (Some(path), Some(wanted)) => path_same(path, wanted),
            _ => false,
        },
    }
}

/// The paths of one conversion. The converter takes its paths as text, so
/// text is what the plan holds: a path that is no valid Unicode has none.
#[derive(Debug, PartialEq, Eq)]
pub struct Plan {
    /// The document to convert. `None` where its path has no text.
    pub input: Option<String>,
    /// Where the caller wants the result. `None` where that path has no
    /// text.
    pub output: Option<String>,
    /// The directory that the converter writes into: the parent of
    /// `output`. `None` where `output` has no text or no parent.
    pub output_dir: Option<String>,
    /// The file that the converter is expected to write: in `output_dir`,
    /// the stem of `input` followed by `.pdf`. `None` where there is no
    /// output directory, or `input` has no text or no stem.
    pub generated: Option<String>,
    /// Whether `generated` and `output` are the same path, so that the
    /// converter writes the result where the caller wants it.
    pub in_place: bool,
}

impl View for Plan {
    type V = PlanView;

    open spec fn view(&self) -> PlanView {
        PlanView {
            input: self.input.deep_view(),
            output: self.output.deep_view(),
            output_dir: self.output_dir.deep_view(),
            generated: self.generated.deep_view(),
            in_place: self.in_place,
        }
    }
}

impl Clone for Plan {
    fn clone(&self) -> (copy: Plan)
        ensures
            copy@ == self@,
    {
        Plan {
            input: copy_of(&self.input),
            output: copy_of(&self.output),
            output_dir: copy_of(&self.output_dir),
            generated: copy_of(&self.generated),
            in_place: self.in_place,
        }
    }
}

impl PlanView {
    /// An output directory is the parent of an output; a generated file
    /// comes of an input and lies in an output directory; and only a
    /// generated file can be in place.
    pub open spec fn consistent(self) -> bool {
        &&& self.output_dir is Some ==> self.output is Some
        &&& self.generated is Some ==> self.input is Some && self.output_dir is Some
        &&& self.in_place ==> self.generated is Some
    }
}

impl Plan {
    /// Works out the paths for converting `input` to `output`. `None`
    /// stands for a path that cannot be given as text. Where the converter
    /// is expected to write to `output` letter for letter, the plan is in
    /// place.
    pub fn new(input: Option<&str>, output: Option<&str>) -> (plan: Plan)
        ensures
            plan@ == plan_for(input.deep_view(), output.deep_view()),
            plan@.consistent(),
            plan@.generated is Some && plan@.generated == plan@.output ==> plan@.in_place,
    {
        let output_dir = match output {
            Some(path) => parent_of(path),
            None => None,
        };
        let generated = match (input, &output_dir) {
            (Some(path), Some(dir)) => Self::generated_in(path, dir.as_str()),
            _ => None,
        };
        let in_place = match (&generated, output) {
            (Some(path), Some(wanted)) => same_path(path.as_str(), wanted),
            _ => false,
        };
        Plan { input: owned(input), output: owned(output), output_dir, generated, in_place }
    }

    /// The file that the converter is expected to write when it converts
    /// `input` into `output_dir`.
    pub fn generated_in(input: &str, output_dir: &str) -> (generated: Option<String>)
        ensures
            generated.deep_view() == expected_output(input@, output_dir@),
    {
        match file_stem_of(input) {
            Some(stem) => {
                let name = stem.concat(".pdf");
                Some(join(output_dir, name.as_str()))
            },
            None => None,
        }
    }
}

/// A copy of `text`.
fn copy_of(text: &Option<String>) -> (copy: Option<String>)
    ensures
        copy.deep_view() == text.deep_view(),
{
    match text {
        Some(text) => Some(text.clone()),
        None => None,
    }
}

/// The text of `text`, owned.
fn owned(text: Option<&str>) -> (copy: Option<String>)
    ensures
        copy.deep_view() == text.deep_view(),
{
    match text {
        Some(text) => Some(text.to_owned()),
        None => None,
    }
}

} // verus!
