use scaffolder::dispatch::{dispatch_plan, plan, DispatchStep};
use scaffolder::language::{Initializer, ProjectLanguage};

fn texts(parts: &[&str]) -> Vec<String> {
    parts.iter().map(|part| part.to_string()).collect()
}

fn runs_a_program(steps: &[DispatchStep]) -> bool {
    steps.iter().any(|step| matches!(step, DispatchStep::Run { .. }))
}

fn makes_a_folder(steps: &[DispatchStep]) -> bool {
    steps.iter().any(|step| {
        matches!(step, DispatchStep::CreateDir { .. } | DispatchStep::CreateDirAll { .. })
    })
}

#[test]
fn languages_come_in_menu_order() {
    assert_eq!(
        ProjectLanguage::all(),
        vec![
            ProjectLanguage::Rust,
            ProjectLanguage::Web,
            ProjectLanguage::Cpp,
            ProjectLanguage::Ocaml,
            ProjectLanguage::Haskell,
        ]
    );
}

#[test]
fn languages_are_shown_under_their_names() {
    assert_eq!(ProjectLanguage::Rust.label(), "rust");
    assert_eq!(ProjectLanguage::Web.label(), "web");
    assert_eq!(ProjectLanguage::Cpp.label(), "cpp");
    assert_eq!(ProjectLanguage::Ocaml.label(), "ocaml");
    assert_eq!(ProjectLanguage::Haskell.label(), "haskell");
}

#[test]
fn rust_is_initialised_by_cargo() {
    assert_eq!(
        ProjectLanguage::Rust.initializer(),
        Initializer::Command {
            program: "cargo".to_string(),
            arguments: texts(&["new"]),
            creates_folder: true,
        }
    );
}

#[test]
fn ocaml_is_initialised_by_dune() {
    assert_eq!(
        ProjectLanguage::Ocaml.initializer(),
        Initializer::Command {
            program: "dune".to_string(),
            arguments: texts(&["init", "project"]),
            creates_folder: true,
        }
    );
}

#[test]
fn haskell_is_initialised_by_cabal_in_a_folder_made_for_it() {
    assert_eq!(
        ProjectLanguage::Haskell.initializer(),
        Initializer::Command {
            program: "cabal".to_string(),
            arguments: texts(&["init"]),
            creates_folder: false,
        }
    );
}

#[test]
fn web_starts_from_an_index_page() {
    assert_eq!(
        ProjectLanguage::Web.initializer(),
        Initializer::StubFile { directories: Vec::new(), file_name: "index.html".to_string() }
    );
}

#[test]
fn cpp_starts_from_a_main_file_in_src() {
    assert_eq!(
        ProjectLanguage::Cpp.initializer(),
        Initializer::StubFile { directories: texts(&["src"]), file_name: "main.cpp".to_string() }
    );
}

#[test]
fn rust_runs_cargo_with_the_name_and_makes_no_folder() {
    let steps = dispatch_plan("demo", ProjectLanguage::Rust);
    assert_eq!(
        steps,
        vec![DispatchStep::Run {
            program: "cargo".to_string(),
            arguments: texts(&["new", "demo"]),
        }]
    );
    assert!(!makes_a_folder(&steps));
}

#[test]
fn web_makes_the_folder_and_writes_the_index_page() {
    let steps = dispatch_plan("demo", ProjectLanguage::Web);
    assert_eq!(
        steps,
        vec![
            DispatchStep::CreateDir { path: texts(&["demo"]) },
            DispatchStep::WriteFile {
                path: texts(&["demo", "index.html"]),
                contents: "test".to_string(),
            },
        ]
    );
    assert!(!runs_a_program(&steps));
}

#[test]
fn cpp_makes_the_folders_and_writes_the_main_file() {
    let steps = dispatch_plan("demo", ProjectLanguage::Cpp);
    assert_eq!(
        steps,
        vec![
            DispatchStep::CreateDir { path: texts(&["demo"]) },
            DispatchStep::CreateDirAll { path: texts(&["demo", "src"]) },
            DispatchStep::WriteFile {
                path: texts(&["demo", "src", "main.cpp"]),
                contents: "test".to_string(),
            },
        ]
    );
    assert!(!runs_a_program(&steps));
}

#[test]
fn ocaml_runs_dune_with_the_name_and_makes_no_folder() {
    let steps = dispatch_plan("demo", ProjectLanguage::Ocaml);
    assert_eq!(
        steps,
        vec![DispatchStep::Run {
            program: "dune".to_string(),
            arguments: texts(&["init", "project", "demo"]),
        }]
    );
}

#[test]
fn haskell_makes_and_enters_the_folder_before_cabal_runs() {
    let steps = dispatch_plan("demo", ProjectLanguage::Haskell);
    assert_eq!(
        steps,
        vec![
            DispatchStep::CreateDir { path: texts(&["demo"]) },
            DispatchStep::ChangeDir { path: texts(&["demo"]) },
            DispatchStep::Run { program: "cabal".to_string(), arguments: texts(&["init", "demo"]) },
        ]
    );
}

#[test]
fn the_name_is_handed_on_as_it_is() {
    let steps = dispatch_plan("my app \u{1f680}", ProjectLanguage::Rust);
    assert_eq!(
        steps,
        vec![DispatchStep::Run {
            program: "cargo".to_string(),
            arguments: texts(&["new", "my app \u{1f680}"]),
        }]
    );
    let steps = dispatch_plan("", ProjectLanguage::Web);
    assert_eq!(steps[0], DispatchStep::CreateDir { path: texts(&[""]) });
}

#[test]
fn a_plan_follows_any_initializer() {
    let generator = Initializer::Command {
        program: "npm".to_string(),
        arguments: texts(&["init", "--yes"]),
        creates_folder: false,
    };
    assert_eq!(
        plan("site", &generator),
        vec![
            DispatchStep::CreateDir { path: texts(&["site"]) },
            DispatchStep::ChangeDir { path: texts(&["site"]) },
            DispatchStep::Run {
                program: "npm".to_string(),
                arguments: texts(&["init", "--yes", "site"]),
            },
        ]
    );
    let nested = Initializer::StubFile {
        directories: texts(&["a", "b"]),
        file_name: "c.txt".to_string(),
    };
    assert_eq!(
        plan("site", &nested),
        vec![
            DispatchStep::CreateDir { path: texts(&["site"]) },
            DispatchStep::CreateDirAll { path: texts(&["site", "a", "b"]) },
            DispatchStep::WriteFile {
                path: texts(&["site", "a", "b", "c.txt"]),
                contents: "test".to_string(),
            },
        ]
    );
}

#[test]
fn a_generator_without_arguments_gets_the_name_alone() {
    let bare = Initializer::Command {
        program: "mkproj".to_string(),
        arguments: Vec::new(),
        creates_folder: true,
    };
    assert_eq!(
        plan("x", &bare),
        vec![DispatchStep::Run { program: "mkproj".to_string(), arguments: texts(&["x"]) }]
    );
}
