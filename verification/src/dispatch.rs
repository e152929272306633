//! From a finished choice to the steps that create the project.
//!
//! A plan is a list of file system and process steps. Paths are lists of
//! components relative to the folder the program was started in; nothing here
//! touches the file system.

use crate::language::{Initializer, InitializerModel, ProjectLanguage};
use vstd::prelude::*;

verus! {

/// One step of creating a project.
#[derive(Clone, Debug, PartialEq, Eq)]
pub enum DispatchStep {
    /// Make one folder. Its parent exists.
    CreateDir { path: Vec<String> },
    /// Make a folder and every missing folder above it.
    CreateDirAll { path: Vec<String> },
    /// Make a folder the working directory.
    ChangeDir { path: Vec<String> },
    /// Write a file with the given contents.
    WriteFile { path: Vec<String>, contents: String },
    /// Run a program with the given arguments.
    Run { program: String, arguments: Vec<String> },
}

/// The mathematical value of a [`DispatchStep`].
pub enum DispatchStepModel {
    CreateDir { path: Seq<Seq<char>> },
    CreateDirAll { path: Seq<Seq<char>> },
    ChangeDir { path: Seq<Seq<char>> },
    WriteFile { path: Seq<Seq<char>>, contents: Seq<char> },
    Run { program: Seq<char>, arguments: Seq<Seq<char>> },
}

impl View for DispatchStep {
    type V = DispatchStepModel;

    open spec fn view(&self) -> DispatchStepModel {
        match self {
            DispatchStep::CreateDir { path } => DispatchStepModel::CreateDir {
                path: path.deep_view(),
            },
            DispatchStep::CreateDirAll { path } => DispatchStepModel::CreateDirAll {
                path: path.deep_view(),
            },
            DispatchStep::ChangeDir { path } => DispatchStepModel::ChangeDir {
                path: path.deep_view(),
            },
            DispatchStep::WriteFile { path, contents } => DispatchStepModel::WriteFile {
                path: path.deep_view(),
                contents: contents@,
            },
            DispatchStep::Run { program, arguments } => DispatchStepModel::Run {
                program: program@,
                arguments: arguments.deep_view(),
            },
        }
    }
}

impl DeepView for DispatchStep {
    type V = DispatchStepModel;

    open spec fn deep_view(&self) -> DispatchStepModel {
        self@
    }
}

/// What a placeholder file holds.
pub open spec fn placeholder_contents() -> Seq<char> {
    "test"@
}

/// The steps that create the project `name` with the given initialiser.
///
/// A generator that makes its own folder is simply run with the name as its
/// last argument. For one that does not, the project folder is made and
/// entered first. A placeholder file is written after the project folder and
/// the folders between it and the file have been made; no program runs.
pub open spec fn plan_model(name: Seq<char>, initializer: InitializerModel) -> Seq<
    DispatchStepModel,
> {
    match initializer {
        InitializerModel::Command { program, arguments, creates_folder } => {
            let run = DispatchStepModel::Run { program, arguments: arguments.push(name) };
            if creates_folder {
                seq![run]
            } else {
                seq![
                    DispatchStepModel::CreateDir { path: seq![name] },
                    DispatchStepModel::ChangeDir { path: seq![name] },
                    run,
                ]
            }
        },
        InitializerModel::StubFile { directories, file_name } => {
            let folder = seq![name] + directories;
            let write = DispatchStepModel::WriteFile {
                path: folder.push(file_name),
                contents: placeholder_contents(),
            };
            if directories.len() == 0 {
                seq![DispatchStepModel::CreateDir { path: seq![name] }, write]
            } else {
                seq![
                    DispatchStepModel::CreateDir { path: seq![name] },
                    DispatchStepModel::CreateDirAll { path: folder },
                    write,
                ]
            }
        },
    }
}

/// A path of one component.
fn single(component: &str) -> (path: Vec<String>)
    ensures
        path.deep_view() == seq![component@],
{
    let mut path = Vec::new();
    path.push(component.to_owned());
    assert(path.deep_view() =~= seq![component@]);
    path
}

/// Appends copies of `more` to `path`.
fn extend(path: &mut Vec<String>, more: &Vec<String>)
    ensures
        final(path).deep_view() == old(path).deep_view() + more.deep_view(),
{
    let mut i: usize = 0;
    assert(path.deep_view() =~= old(path).deep_view() + more.deep_view().take(0));
    while i < more.len()
        invariant
            i <= more.len(),
            path.deep_view() == old(path).deep_view() + more.deep_view().take(i as int),
        decreases more.len() - i,
    {
        let ghost before = path.deep_view();
        path.push(more[i].clone());
        assert(path.deep_view() =~= before.push(more[i as int]@));
        assert(path.deep_view() =~= old(path).deep_view() + more.deep_view().take(i + 1));
        i += 1;
    }
    assert(more.deep_view().take(i as int) =~= more.deep_view());
}

/// The steps that create the project `name` with the given initialiser.
pub fn plan(name: &str, initializer: &Initializer) -> (steps: Vec<DispatchStep>)
    ensures
        steps.deep_view() == plan_model(name@, initializer@),
{
    let mut steps: Vec<DispatchStep> = Vec::new();
    match initializer {
        Initializer::Command { program, arguments, creates_folder } => {
            let mut full: Vec<String> = Vec::new();
            extend(&mut full, arguments);
            full.push(name.to_owned());
            assert(full.deep_view() =~= arguments.deep_view().push(name@));
            let run = DispatchStep::Run { program: program.clone(), arguments: full };
            if *creates_folder {
                steps.push(run);
            } else {
                steps.push(DispatchStep::CreateDir { path: single(name) });
                steps.push(DispatchStep::ChangeDir { path: single(name) });
                steps.push(run);
            }
        },
        Initializer::StubFile { directories, file_name } => {
            let mut folder = single(name);
            extend(&mut folder, directories);
            let mut file = single(name);
            extend(&mut file, directories);
            file.push(file_name.clone());
            assert(file.deep_view() =~= (seq![name@] + directories.deep_view()).push(file_name@));
            let write = DispatchStep::WriteFile { path: file, contents: "test".to_owned() };
            steps.push(DispatchStep::CreateDir { path: single(name) });
            if directories.len() > 0 {
                steps.push(DispatchStep::CreateDirAll { path: folder });
            }
            steps.push(write);
        },
    }
    assert(steps.deep_view() =~= plan_model(name@, initializer@));
    steps
}

/// The steps that create the project `name` in the given language.
pub fn dispatch_plan(name: &str, language: ProjectLanguage) -> (steps: Vec<DispatchStep>)
    ensures
        steps.deep_view() == plan_model(name@, language.initializer_model()),
{
    let initializer = language.initializer();
    plan(name, &initializer)
}

} // verus!
