use vstd::prelude::*;
use vstd::string::StringSliceAdditionalSpecFns;

use crate::error::{outcome_view, ErrorView, InfraError};
use crate::process::{
    check_compile, finish_run, run_outcome, step_failure, FailureClass, ProcessResult, ProcessView,
};
use crate::language::{language_of, unsupported_text, Language};
use crate::strategy::{strategy_for, strategy_of, Arg, ArtifactKind, Program, Strategy, StrategyView};
use crate::text::{append, joined, owned};

verus! {

/// A scratch resource that must be removed when the submission ends.
pub struct Scratch {
    pub path: String,
    /// Whether it is a directory, removed with its contents.
    pub dir: bool,
}

#[verifier::ext_equal]
pub struct ScratchView {
    pub path: Seq<char>,
    pub dir: bool,
}

impl View for Scratch {
    type V = ScratchView;

    open spec fn view(&self) -> ScratchView {
        ScratchView { path: self.path@, dir: self.dir }
    }
}

/// Where a submission stands.
#[derive(Clone, Copy, PartialEq, Eq, Structural, Debug)]
pub enum Phase {
    /// Nothing has been done yet.
    Start,
    /// Waiting for the compiler to be looked up.
    FindCompiler,
    /// Waiting for the runner to be looked up.
    FindRunner,
    /// Waiting for the private working directory.
    MakeWorkDir,
    /// Waiting for the source file to be written.
    WriteSource,
    /// Waiting for the artifact path or the class directory.
    MakeArtifact,
    /// Waiting for the compile step to exit.
    Compile,
    /// Waiting for the program to exit.
    Run,
    /// The outcome has been handed out.
    Done,
}

/// What the driver reports back after performing an action.
pub enum Event {
    /// The tool was found at this path.
    Found(String),
    /// The tool is not on the search path.
    NotFound,
    /// The scratch file, directory or path was created at this path.
    Created(String),
    /// The file was written at the requested path.
    Written,
    /// The child process exited.
    Exited(ProcessResult),
    /// The action failed with this I/O error.
    Failed(String),
}

pub enum EventView {
    Found(Seq<char>),
    NotFound,
    Created(Seq<char>),
    Written,
    Exited(ProcessView),
    Failed(Seq<char>),
}

impl View for Event {
    type V = EventView;

    open spec fn view(&self) -> EventView {
        match self {
            Event::Found(p) => EventView::Found(p@),
            Event::NotFound => EventView::NotFound,
            Event::Created(p) => EventView::Created(p@),
            Event::Written => EventView::Written,
            Event::Exited(r) => EventView::Exited(r@),
            Event::Failed(d) => EventView::Failed(d@),
        }
    }
}

/// What the driver must do next.
pub enum Action {
    /// Look an executable up on the search path; answer `Found` or `NotFound`.
    Resolve { tool: &'static str },
    /// Create a fresh uniquely named directory; answer `Created`.
    CreateDir,
    /// Create a fresh uniquely named file with this suffix holding these
    /// bytes; answer `Created`.
    CreateFile { suffix: &'static str, contents: Vec<u8> },
    /// Write these bytes to a file at this path; answer `Written`.
    WriteFile { path: String, contents: Vec<u8> },
    /// Reserve a fresh unique path and leave nothing at it; answer `Created`.
    ReservePath,
    /// Run a child with piped streams, feed it `stdin` and close its input,
    /// and collect its output; answer `Exited`.
    Spawn { program: String, args: Vec<String>, cwd: Option<String>, stdin: Vec<u8> },
    /// Remove every listed resource, in order, then answer the request
    /// with the outcome.
    Finish { outcome: Result<String, InfraError>, release: Vec<Scratch> },
}

pub enum ActionView {
    Resolve { tool: Seq<char> },
    CreateDir,
    CreateFile { suffix: Seq<char>, contents: Seq<u8> },
    WriteFile { path: Seq<char>, contents: Seq<u8> },
    ReservePath,
    Spawn { program: Seq<char>, args: Seq<Seq<char>>, cwd: Option<Seq<char>>, stdin: Seq<u8> },
    Finish { outcome: Result<Seq<char>, ErrorView>, release: Seq<ScratchView> },
}

pub open spec fn opt_view(o: Option<String>) -> Option<Seq<char>> {
    match o {
        Some(s) => Some(s@),
        None => None,
    }
}

pub open spec fn texts_view(v: Seq<String>) -> Seq<Seq<char>> {
    v.map_values(|s: String| s@)
}

pub open spec fn scratch_view(v: Seq<Scratch>) -> Seq<ScratchView> {
    v.map_values(|s: Scratch| s@)
}

impl View for Action {
    type V = ActionView;

    open spec fn view(&self) -> ActionView {
        match self {
            Action::Resolve { tool } => ActionView::Resolve { tool: tool@ },
            Action::CreateDir => ActionView::CreateDir,
            Action::CreateFile { suffix, contents } => ActionView::CreateFile {
                suffix: suffix@,
                contents: contents@,
            },
            Action::WriteFile { path, contents } => ActionView::WriteFile {
                path: path@,
                contents: contents@,
            },
            Action::ReservePath => ActionView::ReservePath,
            Action::Spawn { program, args, cwd, stdin } => ActionView::Spawn {
                program: program@,
                args: texts_view(args@),
                cwd: opt_view(*cwd),
                stdin: stdin@,
            },
            Action::Finish { outcome, release } => ActionView::Finish {
                outcome: outcome_view(*outcome),
                release: scratch_view(release@),
            },
        }
    }
}

/// One submission on its way through the dispatcher.
pub struct Session {
    pub strategy: Strategy,
    /// Bytes of the source file: the preamble, then the user's source.
    pub source: Vec<u8>,
    /// Bytes fed to the program's standard input.
    pub stdin: Vec<u8>,
    pub phase: Phase,
    pub compiler: Option<String>,
    pub runner: Option<String>,
    pub work_dir: Option<String>,
    pub source_path: Option<String>,
    pub artifact_path: Option<String>,
    pub out_dir: Option<String>,
    /// Scratch resources acquired so far, oldest first.
    pub resources: Vec<Scratch>,
}

#[verifier::ext_equal]
pub struct SessionView {
    pub strategy: StrategyView,
    pub source: Seq<u8>,
    pub stdin: Seq<u8>,
    pub phase: Phase,
    pub compiler: Option<Seq<char>>,
    pub runner: Option<Seq<char>>,
    pub work_dir: Option<Seq<char>>,
    pub source_path: Option<Seq<char>>,
    pub artifact_path: Option<Seq<char>>,
    pub out_dir: Option<Seq<char>>,
    pub resources: Seq<ScratchView>,
}

impl View for Session {
    type V = SessionView;

    open spec fn view(&self) -> SessionView {
        SessionView {
            strategy: self.strategy@,
            source: self.source@,
            stdin: self.stdin@,
            phase: self.phase,
            compiler: opt_view(self.compiler),
            runner: opt_view(self.runner),
            work_dir: opt_view(self.work_dir),
            source_path: opt_view(self.source_path),
            artifact_path: opt_view(self.artifact_path),
            out_dir: opt_view(self.out_dir),
            resources: scratch_view(self.resources@),
        }
    }
}

/// A submission that has not done anything yet.
pub open spec fn initial(st: StrategyView, source: Seq<u8>, stdin: Seq<u8>) -> SessionView {
    SessionView {
        strategy: st,
        source: st.preamble.spec_bytes() + source,
        stdin: stdin,
        phase: Phase::Start,
        compiler: None,
        runner: None,
        work_dir: None,
        source_path: None,
        artifact_path: None,
        out_dir: None,
        resources: Seq::empty(),
    }
}

/// The text of a path that may not have been set.
pub open spec fn path_text(o: Option<Seq<char>>) -> Seq<char> {
    match o {
        Some(p) => p,
        None => Seq::empty(),
    }
}

/// Position of a phase in the order of a submission.
pub open spec fn rank(p: Phase) -> nat {
    match p {
        Phase::Start => 0,
        Phase::FindCompiler => 1,
        Phase::FindRunner => 2,
        Phase::MakeWorkDir => 3,
        Phase::WriteSource => 4,
        Phase::MakeArtifact => 5,
        Phase::Compile => 6,
        Phase::Run => 7,
        Phase::Done => 8,
    }
}

pub open spec fn successor(p: Phase) -> Phase {
    match p {
        Phase::Start => Phase::FindCompiler,
        Phase::FindCompiler => Phase::FindRunner,
        Phase::FindRunner => Phase::MakeWorkDir,
        Phase::MakeWorkDir => Phase::WriteSource,
        Phase::WriteSource => Phase::MakeArtifact,
        Phase::MakeArtifact => Phase::Compile,
        Phase::Compile => Phase::Run,
        Phase::Run => Phase::Done,
        Phase::Done => Phase::Done,
    }
}

/// The program of the compile step; `Built` where there is none.
pub open spec fn compile_program(st: StrategyView) -> Program {
    match st.compile {
        Some(c) => c.program,
        None => Program::Built,
    }
}

pub open spec fn compile_args(st: StrategyView) -> Seq<Arg> {
    match st.compile {
        Some(c) => c.args,
        None => Seq::empty(),
    }
}

pub open spec fn tool_name(p: Program) -> Seq<char> {
    match p {
        Program::Tool(name) => name@,
        Program::Built => Seq::empty(),
    }
}

/// Whether a strategy goes through a phase.
pub open spec fn needed(st: StrategyView, p: Phase) -> bool {
    match p {
        Phase::FindCompiler => st.compile is Some && compile_program(st) is Tool,
        Phase::FindRunner => st.run.program is Tool,
        Phase::MakeWorkDir => st.work_dir_required,
        Phase::WriteSource => true,
        Phase::MakeArtifact => st.artifact is File || st.artifact is Dir,
        Phase::Compile => st.compile is Some,
        Phase::Run => true,
        _ => false,
    }
}

/// The text of one command-line element.
pub open spec fn render_arg(s: SessionView, a: Arg) -> Seq<char> {
    match a {
        Arg::Text(t) => t@,
        Arg::Source => path_text(s.source_path),
        Arg::Artifact => path_text(s.artifact_path),
        Arg::OutputDir => path_text(s.out_dir),
    }
}

pub open spec fn render(s: SessionView, args: Seq<Arg>) -> Seq<Seq<char>> {
    args.map_values(|a: Arg| render_arg(s, a))
}

/// The path of what a step executes.
pub open spec fn program_path(s: SessionView, p: Program, resolved: Option<Seq<char>>) -> Seq<char> {
    match p {
        Program::Tool(_) => path_text(resolved),
        Program::Built => path_text(s.artifact_path),
    }
}

/// The working directory of the steps.
pub open spec fn step_cwd(s: SessionView) -> Option<Seq<char>> {
    if s.strategy.work_dir_required {
        s.work_dir
    } else {
        None
    }
}

/// The path of the source file inside the private working directory.
pub open spec fn placed_source(s: SessionView) -> Seq<char> {
    path_text(s.work_dir) + "/program"@ + s.strategy.suffix@
}

/// The path of the executable that the compiler derives from the source name.
pub open spec fn derived_executable(s: SessionView) -> Seq<char> {
    path_text(s.work_dir) + "/program"@
}

/// Ends the submission: every resource is released, last acquired first.
pub open spec fn finish(s: SessionView, outcome: Result<Seq<char>, ErrorView>) -> (SessionView, ActionView) {
    (
        SessionView { phase: Phase::Done, resources: Seq::empty(), ..s },
        ActionView::Finish { outcome, release: s.resources.reverse() },
    )
}

pub open spec fn unexpected_text() -> Seq<char> {
    "event does not fit the current phase"@
}

/// Enters a phase that the strategy goes through, and names its action.
pub open spec fn emit(s: SessionView, p: Phase) -> (SessionView, ActionView) {
    let st = s.strategy;
    let s1 = SessionView { phase: p, ..s };
    match p {
        Phase::FindCompiler => (s1, ActionView::Resolve { tool: tool_name(compile_program(st)) }),
        Phase::FindRunner => (s1, ActionView::Resolve { tool: tool_name(st.run.program) }),
        Phase::MakeWorkDir => (s1, ActionView::CreateDir),
        Phase::WriteSource => if st.work_dir_required {
            let path = placed_source(s);
            (
                SessionView {
                    source_path: Some(path),
                    resources: s.resources.push(ScratchView { path, dir: false }),
                    ..s1
                },
                ActionView::WriteFile { path, contents: s.source },
            )
        } else {
            (s1, ActionView::CreateFile { suffix: st.suffix@, contents: s.source })
        },
        Phase::MakeArtifact => if st.artifact is Dir {
            (s1, ActionView::CreateDir)
        } else {
            (s1, ActionView::ReservePath)
        },
        Phase::Compile => {
            let s2 = if st.artifact is Derived {
                let exe = derived_executable(s);
                SessionView {
                    artifact_path: Some(exe),
                    resources: s.resources.push(ScratchView { path: exe, dir: false }),
                    ..s1
                }
            } else {
                s1
            };
            (
                s2,
                ActionView::Spawn {
                    program: program_path(s2, compile_program(st), s2.compiler),
                    args: render(s2, compile_args(st)),
                    cwd: step_cwd(s2),
                    stdin: Seq::empty(),
                },
            )
        },
        Phase::Run => (
            s1,
            ActionView::Spawn {
                program: program_path(s, st.run.program, s.runner),
                args: render(s, st.run.args),
                cwd: step_cwd(s),
                stdin: s.stdin,
            },
        ),
        _ => finish(s, Err(ErrorView::IoError(unexpected_text()))),
    }
}

/// Moves on to the first phase from `p` that the strategy goes through.
pub open spec fn enter(s: SessionView, p: Phase) -> (SessionView, ActionView)
    decreases 7 - rank(p),
{
    if needed(s.strategy, p) || rank(p) >= 7 {
        emit(s, p)
    } else {
        enter(s, successor(p))
    }
}

/// The reaction of a submission to an event.
pub open spec fn step(s: SessionView, e: EventView) -> (SessionView, ActionView) {
    let st = s.strategy;
    let bad = finish(s, Err(ErrorView::IoError(unexpected_text())));
    match e {
        EventView::Failed(d) => finish(s, Err(ErrorView::IoError(d))),
        _ => match s.phase {
            Phase::FindCompiler => match e {
                EventView::Found(p) => enter(SessionView { compiler: Some(p), ..s }, Phase::FindRunner),
                EventView::NotFound => finish(
                    s,
                    Err(ErrorView::CompilerNotFound(tool_name(compile_program(st)))),
                ),
                _ => bad,
            },
            Phase::FindRunner => match e {
                EventView::Found(p) => enter(SessionView { runner: Some(p), ..s }, Phase::MakeWorkDir),
                EventView::NotFound => finish(
                    s,
                    Err(ErrorView::CompilerNotFound(tool_name(st.run.program))),
                ),
                _ => bad,
            },
            Phase::MakeWorkDir => match e {
                EventView::Created(p) => enter(
                    SessionView {
                        work_dir: Some(p),
                        resources: s.resources.push(ScratchView { path: p, dir: true }),
                        ..s
                    },
                    Phase::WriteSource,
                ),
                _ => bad,
            },
            Phase::WriteSource => match e {
                EventView::Created(p) => enter(
                    SessionView {
                        source_path: Some(p),
                        resources: s.resources.push(ScratchView { path: p, dir: false }),
                        ..s
                    },
                    Phase::MakeArtifact,
                ),
                EventView::Written => enter(s, Phase::MakeArtifact),
                _ => bad,
            },
            Phase::MakeArtifact => match e {
                EventView::Created(p) => if st.artifact is Dir {
                    enter(
                        SessionView {
                            out_dir: Some(p),
                            resources: s.resources.push(ScratchView { path: p, dir: true }),
                            ..s
                        },
                        Phase::Compile,
                    )
                } else {
                    enter(
                        SessionView {
                            artifact_path: Some(p),
                            resources: s.resources.push(ScratchView { path: p, dir: false }),
                            ..s
                        },
                        Phase::Compile,
                    )
                },
                _ => bad,
            },
            Phase::Compile => match e {
                EventView::Exited(r) => if r.code == Some(0i32) {
                    enter(s, Phase::Run)
                } else {
                    finish(s, Err(step_failure(FailureClass::Compile, r.code, r.stderr)))
                },
                _ => bad,
            },
            Phase::Run => match e {
                EventView::Exited(r) => finish(
                    s,
                    run_outcome(st.run_failure, r.code, r.stdout, r.stderr),
                ),
                _ => bad,
            },
            _ => bad,
        },
    }
}

/// Accepts a submission: the tag picks the strategy, and the first action
/// comes with the session. An unknown tag is rejected before any action.
pub fn submit(tag: &str, source: &str, stdin: &str) -> (r: Result<(Session, Action), InfraError>)
    ensures
        r is Err <==> language_of(tag@) is None,
        r matches Err(e) ==> e@ == ErrorView::UnsupportedLanguage(unsupported_text(tag@)),
        r matches Ok(p) ==> (p.0@, p.1@) == enter(
            initial(strategy_of(language_of(tag@)->0), source.spec_bytes(), stdin.spec_bytes()),
            Phase::FindCompiler,
        ),
{
    let lang = match Language::from_tag(tag) {
        Ok(l) => l,
        Err(e) => {
            return Err(e);
        },
    };
    let mut session = Session::new(strategy_for(lang), source, stdin);
    let action = session.start();
    Ok((session, action))
}

fn text_of(o: &Option<String>) -> (r: String)
    ensures
        r@ == path_text(opt_view(*o)),
{
    match o {
        Some(p) => p.clone(),
        None => String::new(),
    }
}

fn copy_text(o: &Option<String>) -> (r: Option<String>)
    ensures
        opt_view(r) == opt_view(*o),
{
    match o {
        Some(p) => Some(p.clone()),
        None => None,
    }
}

fn copy_bytes(v: &Vec<u8>) -> (r: Vec<u8>)
    ensures
        r@ == v@,
{
    let mut r: Vec<u8> = Vec::new();
    let mut i: usize = 0;
    while i < v.len()
        invariant
            0 <= i <= v@.len(),
            r@ == v@.subrange(0, i as int),
        decreases v@.len() - i,
    {
        r.push(v[i]);
        i = i + 1;
        proof {
            assert(r@ =~= v@.subrange(0, i as int));
        }
    }
    proof {
        assert(r@ =~= v@);
    }
    r
}

fn bytes_of(s: &str) -> (r: Vec<u8>)
    ensures
        r@ == s.spec_bytes(),
{
    let b = s.as_bytes();
    let mut r: Vec<u8> = Vec::new();
    let mut i: usize = 0;
    while i < b.len()
        invariant
            0 <= i <= b@.len(),
            b@ == s.spec_bytes(),
            r@ == b@.subrange(0, i as int),
        decreases b@.len() - i,
    {
        r.push(b[i]);
        i = i + 1;
        proof {
            assert(r@ =~= b@.subrange(0, i as int));
        }
    }
    proof {
        assert(r@ =~= b@);
    }
    r
}

fn program_name(p: Program) -> (r: &'static str)
    ensures
        r@ == tool_name(p),
{
    proof {
        reveal_strlit("");
    }
    match p {
        Program::Tool(name) => name,
        Program::Built => "",
    }
}

fn phase_rank(p: Phase) -> (r: u8)
    ensures
        r as nat == rank(p),
{
    match p {
        Phase::Start => 0,
        Phase::FindCompiler => 1,
        Phase::FindRunner => 2,
        Phase::MakeWorkDir => 3,
        Phase::WriteSource => 4,
        Phase::MakeArtifact => 5,
        Phase::Compile => 6,
        Phase::Run => 7,
        Phase::Done => 8,
    }
}

fn next_phase(p: Phase) -> (r: Phase)
    ensures
        r == successor(p),
{
    match p {
        Phase::Start => Phase::FindCompiler,
        Phase::FindCompiler => Phase::FindRunner,
        Phase::FindRunner => Phase::MakeWorkDir,
        Phase::MakeWorkDir => Phase::WriteSource,
        Phase::WriteSource => Phase::MakeArtifact,
        Phase::MakeArtifact => Phase::Compile,
        Phase::Compile => Phase::Run,
        Phase::Run => Phase::Done,
        Phase::Done => Phase::Done,
    }
}

/// Whether a strategy goes through a phase.
fn goes_through(st: &Strategy, p: Phase) -> (r: bool)
    ensures
        r == needed(st@, p),
{
    match p {
        Phase::FindCompiler => match &st.compile {
            Some(c) => match c.program {
                Program::Tool(_) => true,
                Program::Built => false,
            },
            None => false,
        },
        Phase::FindRunner => match st.run.program {
            Program::Tool(_) => true,
            Program::Built => false,
        },
        Phase::MakeWorkDir => st.work_dir_required,
        Phase::WriteSource => true,
        Phase::MakeArtifact => match st.artifact {
            ArtifactKind::File => true,
            ArtifactKind::Dir => true,
            _ => false,
        },
        Phase::Compile => st.compile.is_some(),
        Phase::Run => true,
        _ => false,
    }
}

impl Session {
    /// A submission of `source`, with `stdin` for its input, to be run by a strategy.
    pub fn new(strategy: Strategy, source: &str, stdin: &str) -> (r: Session)
        ensures
            r@ == initial(strategy@, source.spec_bytes(), stdin.spec_bytes()),
    {
        let mut contents = bytes_of(strategy.preamble);
        let mut rest = bytes_of(source);
        contents.append(&mut rest);
        let r = Session {
            strategy,
            source: contents,
            stdin: bytes_of(stdin),
            phase: Phase::Start,
            compiler: None,
            runner: None,
            work_dir: None,
            source_path: None,
            artifact_path: None,
            out_dir: None,
            resources: Vec::new(),
        };
        proof {
            assert(r@ =~= SessionView {
                strategy: strategy@,
                source: strategy.preamble.spec_bytes() + source.spec_bytes(),
                stdin: stdin.spec_bytes(),
                phase: Phase::Start,
                compiler: None,
                runner: None,
                work_dir: None,
                source_path: None,
                artifact_path: None,
                out_dir: None,
                resources: Seq::empty(),
            });
        }
        r
    }

    fn push_resource(&mut self, path: String, dir: bool)
        ensures
            final(self)@ == (SessionView {
                resources: old(self)@.resources.push(ScratchView { path: path@, dir }),
                ..old(self)@
            }),
    {
        self.resources.push(Scratch { path, dir });
        proof {
            assert(self@.resources =~= old(self)@.resources.push(ScratchView { path: path@, dir }));
            assert(self@ =~= SessionView {
                resources: old(self)@.resources.push(ScratchView { path: path@, dir }),
                ..old(self)@
            });
        }
    }

    fn finish(&mut self, outcome: Result<String, InfraError>) -> (r: Action)
        ensures
            (final(self)@, r@) == finish(old(self)@, outcome_view(outcome)),
    {
        let ghost old_res = self@.resources;
        let mut release: Vec<Scratch> = Vec::new();
        while self.resources.len() > 0
            invariant
                self@ == (SessionView { resources: old_res.subrange(0, self.resources@.len() as int), ..old(self)@ }),
                old_res == old(self)@.resources,
                self.resources@.len() + release@.len() == old_res.len(),
                forall|j: int|
                    0 <= j < release@.len() ==> #[trigger] release@[j]@ == old_res[old_res.len() - 1 - j],
            decreases self.resources@.len(),
        {
            let ghost prev = self.resources@;
            let item = self.resources.pop().unwrap();
            proof {
                let k = prev.len() - 1;
                assert(scratch_view(prev)[k] == item@);
                assert(old_res.subrange(0, prev.len() as int)[k] == old_res[k]);
                assert(item@ == old_res[old_res.len() - 1 - release@.len()]);
            }
            release.push(item);
            proof {
                assert(scratch_view(self.resources@) =~= old_res.subrange(0, self.resources@.len() as int));
                assert(self@ =~= SessionView { resources: old_res.subrange(0, self.resources@.len() as int), ..old(self)@ });
            }
        }
        self.phase = Phase::Done;
        proof {
            assert(scratch_view(release@) =~= old_res.reverse());
            assert(self@ =~= SessionView { phase: Phase::Done, resources: Seq::empty(), ..old(self)@ });
        }
        Action::Finish { outcome, release }
    }

    /// The text of each command-line element.
    fn render(&self, args: &Vec<Arg>) -> (r: Vec<String>)
        ensures
            texts_view(r@) == render(self@, args@),
    {
        let mut out: Vec<String> = Vec::new();
        let mut i: usize = 0;
        while i < args.len()
            invariant
                0 <= i <= args@.len(),
                out@.len() == i,
                forall|j: int| 0 <= j < i ==> #[trigger] out@[j]@ == render_arg(self@, args@[j]),
            decreases args@.len() - i,
        {
            let text = match args[i] {
                Arg::Text(t) => owned(t),
                Arg::Source => text_of(&self.source_path),
                Arg::Artifact => text_of(&self.artifact_path),
                Arg::OutputDir => text_of(&self.out_dir),
            };
            out.push(text);
            i = i + 1;
        }
        proof {
            assert(texts_view(out@) =~= render(self@, args@));
        }
        out
    }

    fn enter(&mut self, p: Phase) -> (r: Action)
        ensures
            (final(self)@, r@) == enter(old(self)@, p),
        decreases 7 - rank(p),
    {
        if goes_through(&self.strategy, p) || phase_rank(p) >= 7 {
            self.emit(p)
        } else {
            self.enter(next_phase(p))
        }
    }

    /// The first action of the submission.
    pub fn start(&mut self) -> (r: Action)
        ensures
            (final(self)@, r@) == enter(old(self)@, Phase::FindCompiler),
    {
        self.enter(Phase::FindCompiler)
    }

    /// Takes the report of the last action and names the next one.
    pub fn advance(&mut self, event: Event) -> (r: Action)
        ensures
            (final(self)@, r@) == step(old(self)@, event@),
    {
        let ghost s = self@;
        let bad = InfraError::IoError(owned("event does not fit the current phase"));
        match event {
            Event::Failed(d) => self.finish(Err(InfraError::IoError(d))),
            Event::Found(path) => match self.phase {
                Phase::FindCompiler => {
                    self.compiler = Some(path);
                    proof {
                        assert(self@ =~= SessionView { compiler: Some(path@), ..s });
                    }
                    self.enter(Phase::FindRunner)
                },
                Phase::FindRunner => {
                    self.runner = Some(path);
                    proof {
                        assert(self@ =~= SessionView { runner: Some(path@), ..s });
                    }
                    self.enter(Phase::MakeWorkDir)
                },
                _ => self.finish(Err(bad)),
            },
            Event::NotFound => match self.phase {
                Phase::FindCompiler => {
                    let program = match &self.strategy.compile {
                        Some(c) => c.program,
                        None => Program::Built,
                    };
                    let name = owned(program_name(program));
                    self.finish(Err(InfraError::CompilerNotFound(name)))
                },
                Phase::FindRunner => {
                    let name = owned(program_name(self.strategy.run.program));
                    self.finish(Err(InfraError::CompilerNotFound(name)))
                },
                _ => self.finish(Err(bad)),
            },
            Event::Created(path) => match self.phase {
                Phase::MakeWorkDir => {
                    self.work_dir = Some(path.clone());
                    self.push_resource(path, true);
                    self.enter(Phase::WriteSource)
                },
                Phase::WriteSource => {
                    self.source_path = Some(path.clone());
                    self.push_resource(path, false);
                    self.enter(Phase::MakeArtifact)
                },
                Phase::MakeArtifact => {
                    match self.strategy.artifact {
                        ArtifactKind::Dir => {
                            self.out_dir = Some(path.clone());
                            self.push_resource(path, true);
                        },
                        _ => {
                            self.artifact_path = Some(path.clone());
                            self.push_resource(path, false);
                        },
                    }
                    self.enter(Phase::Compile)
                },
                _ => self.finish(Err(bad)),
            },
            Event::Written => match self.phase {
                Phase::WriteSource => self.enter(Phase::MakeArtifact),
                _ => self.finish(Err(bad)),
            },
            Event::Exited(result) => match self.phase {
                Phase::Compile => match check_compile(&result) {
                    None => self.enter(Phase::Run),
                    Some(e) => self.finish(Err(e)),
                },
                Phase::Run => {
                    let outcome = finish_run(self.strategy.run_failure, result);
                    self.finish(outcome)
                },
                _ => self.finish(Err(bad)),
            },
        }
    }

    fn emit(&mut self, p: Phase) -> (r: Action)
        ensures
            (final(self)@, r@) == emit(old(self)@, p),
    {
        let ghost s = self@;
        match p {
            Phase::FindCompiler => {
                let program = match &self.strategy.compile {
                    Some(c) => c.program,
                    None => Program::Built,
                };
                self.phase = p;
                proof {
                    assert(self@ =~= SessionView { phase: p, ..s });
                }
                Action::Resolve { tool: program_name(program) }
            },
            Phase::FindRunner => {
                self.phase = p;
                proof {
                    assert(self@ =~= SessionView { phase: p, ..s });
                }
                Action::Resolve { tool: program_name(self.strategy.run.program) }
            },
            Phase::MakeWorkDir => {
                self.phase = p;
                proof {
                    assert(self@ =~= SessionView { phase: p, ..s });
                }
                Action::CreateDir
            },
            Phase::WriteSource => {
                self.phase = p;
                if self.strategy.work_dir_required {
                    let mut path = joined(text_of(&self.work_dir).as_str(), "/program");
                    append(&mut path, self.strategy.suffix);
                    proof {
                        assert(path@ =~= placed_source(s));
                    }
                    self.source_path = Some(path.clone());
                    self.push_resource(path.clone(), false);
                    proof {
                        assert(self@ =~= SessionView {
                            source_path: Some(path@),
                            resources: s.resources.push(ScratchView { path: path@, dir: false }),
                            phase: p,
                            ..s
                        });
                    }
                    Action::WriteFile { path, contents: copy_bytes(&self.source) }
                } else {
                    proof {
                        assert(self@ =~= SessionView { phase: p, ..s });
                    }
                    Action::CreateFile { suffix: self.strategy.suffix, contents: copy_bytes(&self.source) }
                }
            },
            Phase::MakeArtifact => {
                self.phase = p;
                proof {
                    assert(self@ =~= SessionView { phase: p, ..s });
                }
                match self.strategy.artifact {
                    ArtifactKind::Dir => Action::CreateDir,
                    _ => Action::ReservePath,
                }
            },
            Phase::Compile => {
                self.phase = p;
                match self.strategy.artifact {
                    ArtifactKind::Derived => {
                        let exe = joined(text_of(&self.work_dir).as_str(), "/program");
                        self.artifact_path = Some(exe.clone());
                        self.push_resource(exe, false);
                    },
                    _ => {},
                }
                let ghost s2 = self@;
                proof {
                    if s.strategy.artifact is Derived {
                        assert(s2 =~= SessionView {
                            artifact_path: Some(derived_executable(s)),
                            resources: s.resources.push(ScratchView { path: derived_executable(s), dir: false }),
                            phase: p,
                            ..s
                        });
                    } else {
                        assert(s2 =~= SessionView { phase: p, ..s });
                    }
                }
                let (program, args) = match &self.strategy.compile {
                    Some(c) => {
                        let program = match c.program {
                            Program::Tool(_) => text_of(&self.compiler),
                            Program::Built => text_of(&self.artifact_path),
                        };
                        (program, self.render(&c.args))
                    },
                    None => {
                        let none: Vec<Arg> = Vec::new();
                        proof {
                            assert(none@ =~= compile_args(s2.strategy));
                        }
                        (text_of(&self.artifact_path), self.render(&none))
                    },
                };
                let cwd = if self.strategy.work_dir_required {
                    copy_text(&self.work_dir)
                } else {
                    None
                };
                let stdin: Vec<u8> = Vec::new();
                proof {
                    assert(stdin@ =~= Seq::<u8>::empty());
                }
                Action::Spawn { program, args, cwd, stdin }
            },
            Phase::Run => {
                let program = match self.strategy.run.program {
                    Program::Tool(_) => text_of(&self.runner),
                    Program::Built => text_of(&self.artifact_path),
                };
                let args = self.render(&self.strategy.run.args);
                let cwd = if self.strategy.work_dir_required {
                    copy_text(&self.work_dir)
                } else {
                    None
                };
                let stdin = copy_bytes(&self.stdin);
                self.phase = p;
                proof {
                    assert(self@ =~= SessionView { phase: p, ..s });
                }
                Action::Spawn { program, args, cwd, stdin }
            },
            _ => self.finish(Err(InfraError::IoError(owned("event does not fit the current phase")))),
        }
    }
}

} // verus!
