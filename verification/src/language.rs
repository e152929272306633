//! The languages a project can be started in, and how each is initialised.

use vstd::prelude::*;

verus! {

/// A language to start a project in.
#[derive(Debug, PartialEq, Eq, Hash, Clone, Copy, Structural)]
pub enum ProjectLanguage {
    Rust,
    Web,
    Cpp,
    Ocaml,
    Haskell,
}

/// How a project is initialised.
#[derive(Clone, Debug, PartialEq, Eq)]
pub enum Initializer {
    /// By running a generator program. The project name is handed to it as
    /// its last argument.
    Command {
        program: String,
        arguments: Vec<String>,
        /// Whether the generator makes the project folder itself. Where it
        /// does not, the folder is made first and the generator runs inside
        /// it.
        creates_folder: bool,
    },
    /// By writing one placeholder file below the project folder.
    StubFile {
        /// The folders between the project folder and the file, outermost
        /// first.
        directories: Vec<String>,
        file_name: String,
    },
}

/// The mathematical value of an [`Initializer`].
pub enum InitializerModel {
    Command { program: Seq<char>, arguments: Seq<Seq<char>>, creates_folder: bool },
    StubFile { directories: Seq<Seq<char>>, file_name: Seq<char> },
}

impl View for Initializer {
    type V = InitializerModel;

    open spec fn view(&self) -> InitializerModel {
        match self {
            Initializer::Command { program, arguments, creates_folder } => InitializerModel::Command {
                program: program@,
                arguments: arguments.deep_view(),
                creates_folder: *creates_folder,
            },
            Initializer::StubFile { directories, file_name } => InitializerModel::StubFile {
                directories: directories.deep_view(),
                file_name: file_name@,
            },
        }
    }
}

impl ProjectLanguage {
    /// The languages in the order in which a menu offers them.
    pub open spec fn menu_order() -> Seq<ProjectLanguage> {
        seq![
            ProjectLanguage::Rust,
            ProjectLanguage::Web,
            ProjectLanguage::Cpp,
            ProjectLanguage::Ocaml,
            ProjectLanguage::Haskell,
        ]
    }

    /// The name under which a language is shown.
    pub open spec fn label_text(self) -> Seq<char> {
        match self {
            ProjectLanguage::Rust => "rust"@,
            ProjectLanguage::Web => "web"@,
            ProjectLanguage::Cpp => "cpp"@,
            ProjectLanguage::Ocaml => "ocaml"@,
            ProjectLanguage::Haskell => "haskell"@,
        }
    }

    /// How a project in this language is initialised.
    ///
    /// Rust and OCaml have generators that make the project folder
    /// themselves. Haskell's `cabal init` works in the current folder, so the
    /// folder is made for it. Web and C++ projects start from one placeholder
    /// file.
    pub open spec fn initializer_model(self) -> InitializerModel {
        match self {
            ProjectLanguage::Rust => InitializerModel::Command {
                program: "cargo"@,
                arguments: seq!["new"@],
                creates_folder: true,
            },
            ProjectLanguage::Web => InitializerModel::StubFile {
                directories: seq![],
                file_name: "index.html"@,
            },
            ProjectLanguage::Cpp => InitializerModel::StubFile {
                directories: seq!["src"@],
                file_name: "main.cpp"@,
            },
            ProjectLanguage::Ocaml => InitializerModel::Command {
                program: "dune"@,
                arguments: seq!["init"@, "project"@],
                creates_folder: true,
            },
            ProjectLanguage::Haskell => InitializerModel::Command {
                program: "cabal"@,
                arguments: seq!["init"@],
                creates_folder: false,
            },
        }
    }

    /// All languages, in menu order.
    pub fn all() -> (languages: Vec<ProjectLanguage>)
        ensures
            languages@ == ProjectLanguage::menu_order(),
    {
        let mut languages = Vec::new();
        languages.push(ProjectLanguage::Rust);
        languages.push(ProjectLanguage::Web);
        languages.push(ProjectLanguage::Cpp);
        languages.push(ProjectLanguage::Ocaml);
        languages.push(ProjectLanguage::Haskell);
        assert(languages@ =~= ProjectLanguage::menu_order());
        languages
    }

    /// The name under which this language is shown.
    pub fn label(&self) -> (label: &'static str)
        ensures
            label@ == self.label_text(),
    {
        match self {
            ProjectLanguage::Rust => "rust",
            ProjectLanguage::Web => "web",
            ProjectLanguage::Cpp => "cpp",
            ProjectLanguage::Ocaml => "ocaml",
            ProjectLanguage::Haskell => "haskell",
        }
    }

    /// How a project in this language is initialised.
    pub fn initializer(&self) -> (initializer: Initializer)
        ensures
            initializer@ == self.initializer_model(),
    {
        match self {
            ProjectLanguage::Rust => {
                let mut arguments = Vec::new();
                arguments.push("new".to_owned());
                assert(arguments.deep_view() =~= seq!["new"@]);
                Initializer::Command { program: "cargo".to_owned(), arguments, creates_folder: true }
            },
            ProjectLanguage::Web => {
                let directories: Vec<String> = Vec::new();
                assert(directories.deep_view() =~= seq![]);
                Initializer::StubFile { directories, file_name: "index.html".to_owned() }
            },
            ProjectLanguage::Cpp => {
                let mut directories = Vec::new();
                directories.push("src".to_owned());
                assert(directories.deep_view() =~= seq!["src"@]);
                Initializer::StubFile { directories, file_name: "main.cpp".to_owned() }
            },
            ProjectLanguage::Ocaml => {
                let mut arguments = Vec::new();
                arguments.push("init".to_owned());
                arguments.push("project".to_owned());
                assert(arguments.deep_view() =~= seq!["init"@, "project"@]);
                Initializer::Command { program: "dune".to_owned(), arguments, creates_folder: true }
            },
            ProjectLanguage::Haskell => {
                let mut arguments = Vec::new();
                arguments.push("init".to_owned());
                assert(arguments.deep_view() =~= seq!["init"@]);
                Initializer::Command {
                    program: "cabal".to_owned(),
                    arguments,
                    creates_folder: false,
                }
            },
        }
    }
}

} // verus!
