use vstd::prelude::*;

use crate::language::Language;
use crate::process::FailureClass;

verus! {

/// One element of a command line.
#[derive(Clone, Copy, Debug)]
pub enum Arg {
    /// A fixed word.
    Text(&'static str),
    /// The path of the scratch file that holds the program.
    Source,
    /// The path where the compile step leaves the executable.
    Artifact,
    /// The scratch directory that receives compiled classes.
    OutputDir,
}

/// What a step executes.
#[derive(Clone, Copy, Debug)]
pub enum Program {
    /// A toolchain executable, looked up by name on the search path.
    Tool(&'static str),
    /// The executable that the compile step produced.
    Built,
}

/// What the compile step leaves behind besides the source file.
#[derive(Clone, Copy, PartialEq, Eq, Structural, Debug)]
pub enum ArtifactKind {
    /// Nothing: the language is interpreted or compiled and run in one go.
    NoArtifact,
    /// An executable at a reserved scratch path.
    File,
    /// Class files in a scratch directory.
    Dir,
    /// An executable that the compiler names after the source file, next to it.
    Derived,
}

/// One toolchain invocation.
pub struct Step {
    pub program: Program,
    pub args: Vec<Arg>,
}

#[verifier::ext_equal]
pub struct StepView {
    pub program: Program,
    pub args: Seq<Arg>,
}

impl View for Step {
    type V = StepView;

    open spec fn view(&self) -> StepView {
        StepView { program: self.program, args: self.args@ }
    }
}

/// How one language is executed.
pub struct Strategy {
    /// Extension of the scratch source file.
    pub suffix: &'static str,
    /// Text written before the user's source.
    pub preamble: &'static str,
    pub compile: Option<Step>,
    pub run: Step,
    pub artifact: ArtifactKind,
    /// Whether the steps run inside a private working directory.
    pub work_dir_required: bool,
    /// Whether the tool is asked to print its result without quoting.
    pub raw_output: bool,
    /// How a failing exit status of the run step is reported.
    pub run_failure: FailureClass,
}

#[verifier::ext_equal]
pub struct StrategyView {
    pub suffix: &'static str,
    pub preamble: &'static str,
    pub compile: Option<StepView>,
    pub run: StepView,
    pub artifact: ArtifactKind,
    pub work_dir_required: bool,
    pub raw_output: bool,
    pub run_failure: FailureClass,
}

impl View for Strategy {
    type V = StrategyView;

    open spec fn view(&self) -> StrategyView {
        StrategyView {
            suffix: self.suffix,
            preamble: self.preamble,
            compile: match self.compile {
                Some(step) => Some(step@),
                None => None,
            },
            run: self.run@,
            artifact: self.artifact,
            work_dir_required: self.work_dir_required,
            raw_output: self.raw_output,
            run_failure: self.run_failure,
        }
    }
}

/// The strategy of each supported language.
pub open spec fn strategy_of(l: Language) -> StrategyView {
    match l {
        Language::Python => StrategyView {
            suffix: ".py",
            preamble: "",
            compile: None,
            run: StepView { program: Program::Tool("python3"), args: seq![Arg::Source] },
            artifact: ArtifactKind::NoArtifact,
            work_dir_required: false,
            raw_output: false,
            run_failure: FailureClass::Run,
        },
        Language::Javascript => StrategyView {
            suffix: ".js",
            preamble: "",
            compile: None,
            run: StepView { program: Program::Tool("bun"), args: seq![Arg::Source] },
            artifact: ArtifactKind::NoArtifact,
            work_dir_required: false,
            raw_output: false,
            run_failure: FailureClass::Run,
        },
        Language::Typescript => StrategyView {
            suffix: ".js",
            preamble: "",
            compile: None,
            run: StepView { program: Program::Tool("bun"), args: seq![Arg::Source] },
            artifact: ArtifactKind::NoArtifact,
            work_dir_required: false,
            raw_output: false,
            run_failure: FailureClass::Run,
        },
        Language::C => StrategyView {
            suffix: ".c",
            preamble: "",
            compile: Some(StepView { program: Program::Tool("zig"), args: seq![Arg::Text("cc"), Arg::Source, Arg::Text("-o"), Arg::Artifact] }),
            run: StepView { program: Program::Built, args: seq![] },
            artifact: ArtifactKind::File,
            work_dir_required: false,
            raw_output: false,
            run_failure: FailureClass::Run,
        },
        Language::Cpp => StrategyView {
            suffix: ".cpp",
            preamble: "",
            compile: Some(StepView { program: Program::Tool("clang++"), args: seq![Arg::Source, Arg::Text("-o"), Arg::Artifact] }),
            run: StepView { program: Program::Built, args: seq![] },
            artifact: ArtifactKind::File,
            work_dir_required: false,
            raw_output: false,
            run_failure: FailureClass::Run,
        },
        Language::Rust => StrategyView {
            suffix: ".rs",
            preamble: "",
            compile: Some(StepView { program: Program::Tool("rustc"), args: seq![Arg::Source, Arg::Text("--crate-name"), Arg::Text("temp"), Arg::Text("-o"), Arg::Artifact] }),
            run: StepView { program: Program::Built, args: seq![] },
            artifact: ArtifactKind::File,
            work_dir_required: false,
            raw_output: false,
            run_failure: FailureClass::Run,
        },
        Language::Nix => StrategyView {
            suffix: ".nix",
            preamble: "",
            compile: None,
            run: StepView { program: Program::Tool("nix"), args: seq![Arg::Text("eval"), Arg::Text("--file"), Arg::Source, Arg::Text("--raw")] },
            artifact: ArtifactKind::NoArtifact,
            work_dir_required: false,
            raw_output: true,
            run_failure: FailureClass::Compile,
        },
        Language::Go => StrategyView {
            suffix: ".go",
            preamble: "",
            compile: None,
            run: StepView { program: Program::Tool("go"), args: seq![Arg::Text("run"), Arg::Source] },
            artifact: ArtifactKind::NoArtifact,
            work_dir_required: true,
            raw_output: false,
            run_failure: FailureClass::CompileOrRun,
        },
        Language::Zig => StrategyView {
            suffix: ".zig",
            preamble: "",
            compile: None,
            run: StepView { program: Program::Tool("zig"), args: seq![Arg::Text("run"), Arg::Source] },
            artifact: ArtifactKind::NoArtifact,
            work_dir_required: false,
            raw_output: false,
            run_failure: FailureClass::CompileOrRun,
        },
        Language::D => StrategyView {
            suffix: ".d",
            preamble: "module temp;\n",
            compile: None,
            run: StepView { program: Program::Tool("dmd"), args: seq![Arg::Text("-run"), Arg::Source] },
            artifact: ArtifactKind::NoArtifact,
            work_dir_required: false,
            raw_output: false,
            run_failure: FailureClass::CompileOrRun,
        },
        Language::Scala => StrategyView {
            suffix: ".scala",
            preamble: "",
            compile: Some(StepView { program: Program::Tool("scalac"), args: seq![Arg::Source, Arg::Text("-d"), Arg::OutputDir] }),
            run: StepView { program: Program::Tool("scala"), args: seq![Arg::Text("-cp"), Arg::OutputDir, Arg::Text("Main")] },
            artifact: ArtifactKind::Dir,
            work_dir_required: false,
            raw_output: false,
            run_failure: FailureClass::Run,
        },
        Language::Groovy => StrategyView {
            suffix: ".groovy",
            preamble: "",
            compile: Some(StepView { program: Program::Tool("groovyc"), args: seq![Arg::Source, Arg::Text("--classpath"), Arg::OutputDir, Arg::Text("-d"), Arg::OutputDir] }),
            run: StepView { program: Program::Tool("groovy"), args: seq![Arg::Text("-cp"), Arg::OutputDir, Arg::Source] },
            artifact: ArtifactKind::Dir,
            work_dir_required: false,
            raw_output: false,
            run_failure: FailureClass::Run,
        },
        Language::Dart => StrategyView {
            suffix: ".dart",
            preamble: "",
            compile: Some(StepView { program: Program::Tool("dart"), args: seq![Arg::Text("compile"), Arg::Text("exe"), Arg::Source, Arg::Text("-o"), Arg::Artifact] }),
            run: StepView { program: Program::Built, args: seq![] },
            artifact: ArtifactKind::File,
            work_dir_required: false,
            raw_output: false,
            run_failure: FailureClass::Run,
        },
        Language::Ruby => StrategyView {
            suffix: ".rb",
            preamble: "",
            compile: None,
            run: StepView { program: Program::Tool("ruby"), args: seq![Arg::Source] },
            artifact: ArtifactKind::NoArtifact,
            work_dir_required: false,
            raw_output: false,
            run_failure: FailureClass::Run,
        },
        Language::Lua => StrategyView {
            suffix: ".lua",
            preamble: "",
            compile: None,
            run: StepView { program: Program::Tool("lua"), args: seq![Arg::Source] },
            artifact: ArtifactKind::NoArtifact,
            work_dir_required: false,
            raw_output: false,
            run_failure: FailureClass::Run,
        },
        Language::Julia => StrategyView {
            suffix: ".jl",
            preamble: "",
            compile: None,
            run: StepView { program: Program::Tool("julia"), args: seq![Arg::Source] },
            artifact: ArtifactKind::NoArtifact,
            work_dir_required: false,
            raw_output: false,
            run_failure: FailureClass::Run,
        },
        Language::R => StrategyView {
            suffix: ".R",
            preamble: "",
            compile: None,
            run: StepView { program: Program::Tool("Rscript"), args: seq![Arg::Source] },
            artifact: ArtifactKind::NoArtifact,
            work_dir_required: false,
            raw_output: false,
            run_failure: FailureClass::Run,
        },
        Language::Perl => StrategyView {
            suffix: ".pl",
            preamble: "",
            compile: None,
            run: StepView { program: Program::Tool("perl"), args: seq![Arg::Source] },
            artifact: ArtifactKind::NoArtifact,
            work_dir_required: false,
            raw_output: false,
            run_failure: FailureClass::Run,
        },
        Language::Crystal => StrategyView {
            suffix: ".cr",
            preamble: "",
            compile: Some(StepView { program: Program::Tool("crystal"), args: seq![Arg::Text("build"), Arg::Source, Arg::Text("-o"), Arg::Artifact] }),
            run: StepView { program: Program::Built, args: seq![] },
            artifact: ArtifactKind::File,
            work_dir_required: false,
            raw_output: false,
            run_failure: FailureClass::Run,
        },
        Language::Haskell => StrategyView {
            suffix: ".hs",
            preamble: "",
            compile: Some(StepView { program: Program::Tool("ghc"), args: seq![Arg::Text("-o"), Arg::Artifact, Arg::Source] }),
            run: StepView { program: Program::Built, args: seq![] },
            artifact: ArtifactKind::File,
            work_dir_required: false,
            raw_output: false,
            run_failure: FailureClass::Run,
        },
        Language::Brainfuck => StrategyView {
            suffix: ".bf",
            preamble: "",
            compile: Some(StepView { program: Program::Tool("bfc"), args: seq![Arg::Source] }),
            run: StepView { program: Program::Built, args: seq![] },
            artifact: ArtifactKind::Derived,
            work_dir_required: true,
            raw_output: false,
            run_failure: FailureClass::Run,
        },
    }
}

/// The strategy for Kotlin, which is not among the dispatched languages.
pub open spec fn kotlin_strategy_spec() -> StrategyView {
    StrategyView {
        suffix: ".kt",
        preamble: "",
        compile: Some(StepView { program: Program::Tool("kotlinc"), args: seq![Arg::Source, Arg::Text("-d"), Arg::OutputDir] }),
        run: StepView { program: Program::Tool("kotlin"), args: seq![Arg::Text("-cp"), Arg::OutputDir, Arg::Text("MainKt")] },
        artifact: ArtifactKind::Dir,
        work_dir_required: false,
        raw_output: false,
        run_failure: FailureClass::Run,
    }
}

/// The strategy for Odin, which is not among the dispatched languages.
pub open spec fn odin_strategy_spec() -> StrategyView {
    StrategyView {
        suffix: ".odin",
        preamble: "",
        compile: None,
        run: StepView { program: Program::Tool("odin"), args: seq![Arg::Text("run"), Arg::Source, Arg::Text("-file")] },
        artifact: ArtifactKind::NoArtifact,
        work_dir_required: false,
        raw_output: false,
        run_failure: FailureClass::CompileOrRun,
    }
}

/// The strategy for a language.
pub fn strategy_for(l: Language) -> (r: Strategy)
    ensures
        r@ == strategy_of(l),
{
    let r = match l {
        Language::Python => Strategy {
            suffix: ".py",
            preamble: "",
            compile: None,
            run: Step { program: Program::Tool("python3"), args: vec![Arg::Source] },
            artifact: ArtifactKind::NoArtifact,
            work_dir_required: false,
            raw_output: false,
            run_failure: FailureClass::Run,
        },
        Language::Javascript => Strategy {
            suffix: ".js",
            preamble: "",
            compile: None,
            run: Step { program: Program::Tool("bun"), args: vec![Arg::Source] },
            artifact: ArtifactKind::NoArtifact,
            work_dir_required: false,
            raw_output: false,
            run_failure: FailureClass::Run,
        },
        Language::Typescript => Strategy {
            suffix: ".js",
            preamble: "",
            compile: None,
            run: Step { program: Program::Tool("bun"), args: vec![Arg::Source] },
            artifact: ArtifactKind::NoArtifact,
            work_dir_required: false,
            raw_output: false,
            run_failure: FailureClass::Run,
        },
        Language::C => Strategy {
            suffix: ".c",
            preamble: "",
            compile: Some(Step { program: Program::Tool("zig"), args: vec![Arg::Text("cc"), Arg::Source, Arg::Text("-o"), Arg::Artifact] }),
            run: Step { program: Program::Built, args: vec![] },
            artifact: ArtifactKind::File,
            work_dir_required: false,
            raw_output: false,
            run_failure: FailureClass::Run,
        },
        Language::Cpp => Strategy {
            suffix: ".cpp",
            preamble: "",
            compile: Some(Step { program: Program::Tool("clang++"), args: vec![Arg::Source, Arg::Text("-o"), Arg::Artifact] }),
            run: Step { program: Program::Built, args: vec![] },
            artifact: ArtifactKind::File,
            work_dir_required: false,
            raw_output: false,
            run_failure: FailureClass::Run,
        },
        Language::Rust => Strategy {
            suffix: ".rs",
            preamble: "",
            compile: Some(Step { program: Program::Tool("rustc"), args: vec![Arg::Source, Arg::Text("--crate-name"), Arg::Text("temp"), Arg::Text("-o"), Arg::Artifact] }),
            run: Step { program: Program::Built, args: vec![] },
            artifact: ArtifactKind::File,
            work_dir_required: false,
            raw_output: false,
            run_failure: FailureClass::Run,
        },
        Language::Nix => Strategy {
            suffix: ".nix",
            preamble: "",
            compile: None,
            run: Step { program: Program::Tool("nix"), args: vec![Arg::Text("eval"), Arg::Text("--file"), Arg::Source, Arg::Text("--raw")] },
            artifact: ArtifactKind::NoArtifact,
            work_dir_required: false,
            raw_output: true,
            run_failure: FailureClass::Compile,
        },
        Language::Go => Strategy {
            suffix: ".go",
            preamble: "",
            compile: None,
            run: Step { program: Program::Tool("go"), args: vec![Arg::Text("run"), Arg::Source] },
            artifact: ArtifactKind::NoArtifact,
            work_dir_required: true,
            raw_output: false,
            run_failure: FailureClass::CompileOrRun,
        },
        Language::Zig => Strategy {
            suffix: ".zig",
            preamble: "",
            compile: None,
            run: Step { program: Program::Tool("zig"), args: vec![Arg::Text("run"), Arg::Source] },
            artifact: ArtifactKind::NoArtifact,
            work_dir_required: false,
            raw_output: false,
            run_failure: FailureClass::CompileOrRun,
        },
        Language::D => Strategy {
            suffix: ".d",
            preamble: "module temp;\n",
            compile: None,
            run: Step { program: Program::Tool("dmd"), args: vec![Arg::Text("-run"), Arg::Source] },
            artifact: ArtifactKind::NoArtifact,
            work_dir_required: false,
            raw_output: false,
            run_failure: FailureClass::CompileOrRun,
        },
        Language::Scala => Strategy {
            suffix: ".scala",
            preamble: "",
            compile: Some(Step { program: Program::Tool("scalac"), args: vec![Arg::Source, Arg::Text("-d"), Arg::OutputDir] }),
            run: Step { program: Program::Tool("scala"), args: vec![Arg::Text("-cp"), Arg::OutputDir, Arg::Text("Main")] },
            artifact: ArtifactKind::Dir,
            work_dir_required: false,
            raw_output: false,
            run_failure: FailureClass::Run,
        },
        Language::Groovy => Strategy {
            suffix: ".groovy",
            preamble: "",
            compile: Some(Step { program: Program::Tool("groovyc"), args: vec![Arg::Source, Arg::Text("--classpath"), Arg::OutputDir, Arg::Text("-d"), Arg::OutputDir] }),
            run: Step { program: Program::Tool("groovy"), args: vec![Arg::Text("-cp"), Arg::OutputDir, Arg::Source] },
            artifact: ArtifactKind::Dir,
            work_dir_required: false,
            raw_output: false,
            run_failure: FailureClass::Run,
        },
        Language::Dart => Strategy {
            suffix: ".dart",
            preamble: "",
            compile: Some(Step { program: Program::Tool("dart"), args: vec![Arg::Text("compile"), Arg::Text("exe"), Arg::Source, Arg::Text("-o"), Arg::Artifact] }),
            run: Step { program: Program::Built, args: vec![] },
            artifact: ArtifactKind::File,
            work_dir_required: false,
            raw_output: false,
            run_failure: FailureClass::Run,
        },
        Language::Ruby => Strategy {
            suffix: ".rb",
            preamble: "",
            compile: None,
            run: Step { program: Program::Tool("ruby"), args: vec![Arg::Source] },
            artifact: ArtifactKind::NoArtifact,
            work_dir_required: false,
            raw_output: false,
            run_failure: FailureClass::Run,
        },
        Language::Lua => Strategy {
            suffix: ".lua",
            preamble: "",
            compile: None,
            run: Step { program: Program::Tool("lua"), args: vec![Arg::Source] },
            artifact: ArtifactKind::NoArtifact,
            work_dir_required: false,
            raw_output: false,
            run_failure: FailureClass::Run,
        },
        Language::Julia => Strategy {
            suffix: ".jl",
            preamble: "",
            compile: None,
            run: Step { program: Program::Tool("julia"), args: vec![Arg::Source] },
            artifact: ArtifactKind::NoArtifact,
            work_dir_required: false,
            raw_output: false,
            run_failure: FailureClass::Run,
        },
        Language::R => Strategy {
            suffix: ".R",
            preamble: "",
            compile: None,
            run: Step { program: Program::Tool("Rscript"), args: vec![Arg::Source] },
            artifact: ArtifactKind::NoArtifact,
            work_dir_required: false,
            raw_output: false,
            run_failure: FailureClass::Run,
        },
        Language::Perl => Strategy {
            suffix: ".pl",
            preamble: "",
            compile: None,
            run: Step { program: Program::Tool("perl"), args: vec![Arg::Source] },
            artifact: ArtifactKind::NoArtifact,
            work_dir_required: false,
            raw_output: false,
            run_failure: FailureClass::Run,
        },
        Language::Crystal => Strategy {
            suffix: ".cr",
            preamble: "",
            compile: Some(Step { program: Program::Tool("crystal"), args: vec![Arg::Text("build"), Arg::Source, Arg::Text("-o"), Arg::Artifact] }),
            run: Step { program: Program::Built, args: vec![] },
            artifact: ArtifactKind::File,
            work_dir_required: false,
            raw_output: false,
            run_failure: FailureClass::Run,
        },
        Language::Haskell => Strategy {
            suffix: ".hs",
            preamble: "",
            compile: Some(Step { program: Program::Tool("ghc"), args: vec![Arg::Text("-o"), Arg::Artifact, Arg::Source] }),
            run: Step { program: Program::Built, args: vec![] },
            artifact: ArtifactKind::File,
            work_dir_required: false,
            raw_output: false,
            run_failure: FailureClass::Run,
        },
        Language::Brainfuck => Strategy {
            suffix: ".bf",
            preamble: "",
            compile: Some(Step { program: Program::Tool("bfc"), args: vec![Arg::Source] }),
            run: Step { program: Program::Built, args: vec![] },
            artifact: ArtifactKind::Derived,
            work_dir_required: true,
            raw_output: false,
            run_failure: FailureClass::Run,
        },
    };
    proof {
        assert(r@ =~= strategy_of(l));
    }
    r
}

/// The strategy for Kotlin sources.
pub fn kotlin_strategy() -> (r: Strategy)
    ensures
        r@ == kotlin_strategy_spec(),
{
    Strategy {
        suffix: ".kt",
        preamble: "",
        compile: Some(Step { program: Program::Tool("kotlinc"), args: vec![Arg::Source, Arg::Text("-d"), Arg::OutputDir] }),
        run: Step { program: Program::Tool("kotlin"), args: vec![Arg::Text("-cp"), Arg::OutputDir, Arg::Text("MainKt")] },
        artifact: ArtifactKind::Dir,
        work_dir_required: false,
        raw_output: false,
        run_failure: FailureClass::Run,
    }
}

/// The strategy for Odin sources.
pub fn odin_strategy() -> (r: Strategy)
    ensures
        r@ == odin_strategy_spec(),
{
    Strategy {
        suffix: ".odin",
        preamble: "",
        compile: None,
        run: Step { program: Program::Tool("odin"), args: vec![Arg::Text("run"), Arg::Source, Arg::Text("-file")] },
        artifact: ArtifactKind::NoArtifact,
        work_dir_required: false,
        raw_output: false,
        run_failure: FailureClass::CompileOrRun,
    }
}

} // verus!
