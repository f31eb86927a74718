use vstd::prelude::*;
use vstd::string::StringSliceAdditionalSpecFns;
use vstd::utf8::{encode_utf8, encode_utf8_decode_utf8, encode_utf8_valid_utf8};

use crate::dispatch::{
    emit, enter, finish, rank, step, successor, ActionView, EventView, Phase, ScratchView,
    SessionView,
};
use crate::error::ErrorView;
use crate::language::{language_of, tag_of, Language};
use crate::process::{lossy_text, FailureClass, ProcessView};
use crate::strategy::strategy_of;

verus! {

/// `t` starts with `s`.
pub open spec fn extends(s: Seq<ScratchView>, t: Seq<ScratchView>) -> bool {
    s.len() <= t.len() && t.subrange(0, s.len() as int) == s
}

/// What every transition of a submission keeps: its inputs, the input
/// bytes handed to each child, and every scratch resource until a final
/// action releases them all.
pub open spec fn sound(s: SessionView, s2: SessionView, a: ActionView) -> bool {
    &&& s2.strategy == s.strategy
    &&& s2.source == s.source
    &&& s2.stdin == s.stdin
    &&& a is Spawn ==> (s2.phase == Phase::Run && a->Spawn_stdin == s.stdin) || (s2.phase
        == Phase::Compile && a->Spawn_stdin == Seq::<u8>::empty())
    &&& a is Finish ==> s2.phase == Phase::Done && s2.resources.len() == 0 && forall|i: int|
        0 <= i < s.resources.len() ==> #[trigger] a->Finish_release.contains(s.resources[i])
    &&& a !is Finish ==> s2.phase != Phase::Done && extends(s.resources, s2.resources)
}

proof fn lemma_reverse_contains(t: Seq<ScratchView>)
    ensures
        forall|i: int| 0 <= i < t.len() ==> #[trigger] t.reverse().contains(t[i]),
{
    assert forall|i: int| 0 <= i < t.len() implies #[trigger] t.reverse().contains(t[i]) by {
        assert(t.reverse()[t.len() - 1 - i] == t[i]);
    }
}

proof fn lemma_finish_sound(s: SessionView, outcome: Result<Seq<char>, ErrorView>)
    ensures
        sound(s, finish(s, outcome).0, finish(s, outcome).1),
{
    lemma_reverse_contains(s.resources);
}

proof fn lemma_push_extends(s: Seq<ScratchView>, x: ScratchView)
    ensures
        extends(s, s.push(x)),
{
    assert(s.push(x).subrange(0, s.len() as int) =~= s);
}

proof fn lemma_extends_trans(a: Seq<ScratchView>, b: Seq<ScratchView>, c: Seq<ScratchView>)
    requires
        extends(a, b),
        extends(b, c),
    ensures
        extends(a, c),
{
    assert(c.subrange(0, a.len() as int) =~= c.subrange(0, b.len() as int).subrange(0, a.len() as int));
}

proof fn lemma_extends_contains(a: Seq<ScratchView>, b: Seq<ScratchView>, x: ScratchView)
    requires
        extends(a, b),
        a.contains(x),
    ensures
        b.contains(x),
{
    let i = choose|i: int| 0 <= i < a.len() && a[i] == x;
    assert(b.subrange(0, a.len() as int)[i] == b[i]);
}

proof fn lemma_emit_sound(s: SessionView, p: Phase)
    ensures
        sound(s, emit(s, p).0, emit(s, p).1),
{
    let st = s.strategy;
    match p {
        Phase::WriteSource => {
            if st.work_dir_required {
                lemma_push_extends(s.resources, ScratchView { path: crate::dispatch::placed_source(s), dir: false });
            } else {
                assert(extends(s.resources, s.resources)) by {
                    assert(s.resources.subrange(0, s.resources.len() as int) =~= s.resources);
                }
            }
        },
        Phase::Compile => {
            if st.artifact is Derived {
                lemma_push_extends(s.resources, ScratchView { path: crate::dispatch::derived_executable(s), dir: false });
            } else {
                assert(s.resources.subrange(0, s.resources.len() as int) =~= s.resources);
            }
        },
        Phase::Start | Phase::Done => {
            lemma_finish_sound(s, Err(ErrorView::IoError(crate::dispatch::unexpected_text())));
        },
        _ => {
            assert(s.resources.subrange(0, s.resources.len() as int) =~= s.resources);
        },
    }
}

proof fn lemma_enter_sound(s: SessionView, p: Phase)
    ensures
        sound(s, enter(s, p).0, enter(s, p).1),
    decreases 7 - rank(p),
{
    if crate::dispatch::needed(s.strategy, p) || rank(p) >= 7 {
        lemma_emit_sound(s, p);
    } else {
        lemma_enter_sound(s, successor(p));
    }
}

/// Moving to `s1` by recording a resource, then entering a phase, is sound from `s`.
proof fn lemma_record_then_enter(s: SessionView, s1: SessionView, p: Phase)
    requires
        s1.strategy == s.strategy,
        s1.source == s.source,
        s1.stdin == s.stdin,
        extends(s.resources, s1.resources),
    ensures
        sound(s, enter(s1, p).0, enter(s1, p).1),
{
    lemma_enter_sound(s1, p);
    let (s2, a) = enter(s1, p);
    if a is Finish {
        assert forall|i: int| 0 <= i < s.resources.len() implies #[trigger] a->Finish_release.contains(
            s.resources[i],
        ) by {
            assert(s1.resources.subrange(0, s.resources.len() as int)[i] == s1.resources[i]);
            assert(a->Finish_release.contains(s1.resources[i]));
        }
    } else {
        lemma_extends_trans(s.resources, s1.resources, s2.resources);
    }
}

/// Every transition is sound.
pub proof fn lemma_step_sound(s: SessionView, e: EventView)
    ensures
        sound(s, step(s, e).0, step(s, e).1),
{
    let st = s.strategy;
    assert(s.resources.subrange(0, s.resources.len() as int) =~= s.resources);
    lemma_finish_sound(s, Err(ErrorView::IoError(crate::dispatch::unexpected_text())));
    match e {
        EventView::Failed(d) => lemma_finish_sound(s, Err(ErrorView::IoError(d))),
        EventView::Found(p) => {
            lemma_record_then_enter(s, SessionView { compiler: Some(p), ..s }, Phase::FindRunner);
            lemma_record_then_enter(s, SessionView { runner: Some(p), ..s }, Phase::MakeWorkDir);
        },
        EventView::NotFound => {
            lemma_finish_sound(s, Err(ErrorView::CompilerNotFound(crate::dispatch::tool_name(crate::dispatch::compile_program(st)))));
            lemma_finish_sound(s, Err(ErrorView::CompilerNotFound(crate::dispatch::tool_name(st.run.program))));
        },
        EventView::Created(p) => {
            lemma_push_extends(s.resources, ScratchView { path: p, dir: true });
            lemma_push_extends(s.resources, ScratchView { path: p, dir: false });
            lemma_record_then_enter(
                s,
                SessionView { work_dir: Some(p), resources: s.resources.push(ScratchView { path: p, dir: true }), ..s },
                Phase::WriteSource,
            );
            lemma_record_then_enter(
                s,
                SessionView { source_path: Some(p), resources: s.resources.push(ScratchView { path: p, dir: false }), ..s },
                Phase::MakeArtifact,
            );
            lemma_record_then_enter(
                s,
                SessionView { out_dir: Some(p), resources: s.resources.push(ScratchView { path: p, dir: true }), ..s },
                Phase::Compile,
            );
            lemma_record_then_enter(
                s,
                SessionView { artifact_path: Some(p), resources: s.resources.push(ScratchView { path: p, dir: false }), ..s },
                Phase::Compile,
            );
        },
        EventView::Written => {
            lemma_record_then_enter(s, s, Phase::MakeArtifact);
        },
        EventView::Exited(r) => {
            lemma_record_then_enter(s, s, Phase::Run);
            lemma_finish_sound(s, Err(crate::process::step_failure(FailureClass::Compile, r.code, r.stderr)));
            lemma_finish_sound(s, crate::process::run_outcome(st.run_failure, r.code, r.stdout, r.stderr));
        },
    }
}

/// The state a submission reaches after a series of events.
pub open spec fn run(s: SessionView, es: Seq<EventView>) -> SessionView
    decreases es.len(),
{
    if es.len() == 0 {
        s
    } else {
        step(run(s, es.drop_last()), es.last()).0
    }
}

/// The action that answers the last of a series of events.
pub open spec fn last_action(s: SessionView, es: Seq<EventView>) -> ActionView {
    step(run(s, es.drop_last()), es.last()).1
}

/// Determinism of transport: when the program exits with status zero after
/// printing exactly `text`, the submission answers with `text`, byte for byte.
pub proof fn lemma_output_transported(s: SessionView, r: ProcessView, text: Seq<char>)
    requires
        s.phase == Phase::Run,
        r.code == Some(0i32),
        r.stdout == encode_utf8(text),
    ensures
        step(s, EventView::Exited(r)).1 == (ActionView::Finish {
            outcome: Ok(text),
            release: s.resources.reverse(),
        }),
{
    encode_utf8_valid_utf8(text);
    encode_utf8_decode_utf8(text);
}

/// Stdin delivery: the child that runs the program is handed exactly the
/// submission's input bytes, a compile step is handed none, and the run is
/// the last child, so the input goes to the program once.
pub proof fn lemma_stdin_delivered(s: SessionView, e: EventView)
    ensures
        step(s, e).0.stdin == s.stdin,
        step(s, e).1 matches ActionView::Spawn { stdin, .. } ==> (step(s, e).0.phase == Phase::Run
            && stdin == s.stdin) || (step(s, e).0.phase == Phase::Compile && stdin == Seq::<
            u8,
        >::empty()),
        s.phase == Phase::Run ==> step(s, e).1 is Finish,
{
    lemma_step_sound(s, e);
}

/// A new submission holds exactly the input bytes it was given.
pub proof fn lemma_submission_input(st: crate::strategy::StrategyView, source: Seq<u8>, stdin: Seq<u8>)
    ensures
        crate::dispatch::initial(st, source, stdin).stdin == stdin,
        crate::dispatch::initial(st, source, stdin).source == st.preamble.spec_bytes() + source,
        crate::dispatch::initial(st, source, stdin).resources.len() == 0,
{
}

proof fn lemma_held(s: SessionView, es: Seq<EventView>, x: ScratchView)
    requires
        s.resources.contains(x),
        forall|k: int| 1 <= k <= es.len() ==> #[trigger] run(s, es.take(k)).phase != Phase::Done,
    ensures
        run(s, es).resources.contains(x),
    decreases es.len(),
{
    if es.len() > 0 {
        let prefix = es.drop_last();
        assert forall|k: int| 1 <= k <= prefix.len() implies #[trigger] run(s, prefix.take(k)).phase
            != Phase::Done by {
            assert(prefix.take(k) =~= es.take(k));
        }
        lemma_held(s, prefix, x);
        assert(es.take(es.len() as int) =~= es);
        let mid = run(s, prefix);
        lemma_step_sound(mid, es.last());
        lemma_extends_contains(mid.resources, run(s, es).resources, x);
    }
}

/// Cleanup: a scratch resource that a submission holds stays held until the
/// submission finishes, and the final action releases it.
pub proof fn lemma_cleanup(s: SessionView, es: Seq<EventView>, x: ScratchView)
    requires
        es.len() > 0,
        s.resources.contains(x),
        forall|k: int| 1 <= k < es.len() ==> #[trigger] run(s, es.take(k)).phase != Phase::Done,
    ensures
        last_action(s, es) is Finish ==> last_action(s, es)->Finish_release.contains(x),
{
    let prefix = es.drop_last();
    assert forall|k: int| 1 <= k <= prefix.len() implies #[trigger] run(s, prefix.take(k)).phase
        != Phase::Done by {
        assert(prefix.take(k) =~= es.take(k));
    }
    lemma_held(s, prefix, x);
    let mid = run(s, prefix);
    lemma_step_sound(mid, es.last());
}

/// Error classes: a failing compile step gives a compilation error, a
/// program that exits with a non-zero status gives the error of the
/// strategy's class, a signal gives the signal error, and a missing tool
/// gives the tool-missing error.
pub proof fn lemma_error_kinds(s: SessionView, r: ProcessView)
    ensures
        s.phase == Phase::Compile && r.code is Some && r.code != Some(0i32) ==> step(
            s,
            EventView::Exited(r),
        ).1->Finish_outcome == Err::<Seq<char>, ErrorView>(ErrorView::CompilationError(lossy_text(r.stderr))),
        s.phase == Phase::Run && s.strategy.run_failure == FailureClass::Run && r.code is Some
            && r.code != Some(0i32) ==> step(s, EventView::Exited(r)).1->Finish_outcome == Err::<
            Seq<char>,
            ErrorView,
        >(ErrorView::RunError { code: r.code->0, stderr: lossy_text(r.stderr) }),
        (s.phase == Phase::Compile || s.phase == Phase::Run) && r.code is None ==> step(
            s,
            EventView::Exited(r),
        ).1->Finish_outcome == Err::<Seq<char>, ErrorView>(ErrorView::SignalError { stderr: lossy_text(r.stderr) }),
        (s.phase == Phase::FindCompiler || s.phase == Phase::FindRunner) ==> step(
            s,
            EventView::NotFound,
        ).1->Finish_outcome is Err && step(s, EventView::NotFound).1->Finish_outcome->Err_0 is CompilerNotFound,
{
}

/// A path that the submission uses for its own files is held as one of its
/// scratch resources.
pub open spec fn held(s: SessionView, o: Option<Seq<char>>, dir: bool) -> bool {
    o matches Some(p) ==> s.resources.contains(ScratchView { path: p, dir })
}

/// While a submission is live, its working directory, source file, artifact
/// and class directory are all among its own scratch resources.
pub open spec fn paths_held(s: SessionView) -> bool {
    s.phase != Phase::Done ==> {
        &&& held(s, s.work_dir, true)
        &&& held(s, s.source_path, false)
        &&& held(s, s.artifact_path, false)
        &&& held(s, s.out_dir, true)
    }
}

proof fn lemma_held_grows(s: SessionView, t: SessionView)
    requires
        paths_held(s),
        s.phase != Phase::Done,
        extends(s.resources, t.resources),
        t.work_dir == s.work_dir,
        t.source_path == s.source_path,
        t.artifact_path == s.artifact_path,
        t.out_dir == s.out_dir,
    ensures
        paths_held(t),
{
    if let Some(p) = s.work_dir {
        lemma_extends_contains(s.resources, t.resources, ScratchView { path: p, dir: true });
    }
    if let Some(p) = s.source_path {
        lemma_extends_contains(s.resources, t.resources, ScratchView { path: p, dir: false });
    }
    if let Some(p) = s.artifact_path {
        lemma_extends_contains(s.resources, t.resources, ScratchView { path: p, dir: false });
    }
    if let Some(p) = s.out_dir {
        lemma_extends_contains(s.resources, t.resources, ScratchView { path: p, dir: true });
    }
}

proof fn lemma_push_contains(s: Seq<ScratchView>, x: ScratchView)
    ensures
        s.push(x).contains(x),
{
    assert(s.push(x)[s.len() as int] == x);
}

proof fn lemma_emit_held(s: SessionView, p: Phase)
    requires
        paths_held(s),
        s.phase != Phase::Done,
    ensures
        paths_held(emit(s, p).0),
{
    lemma_emit_sound(s, p);
    let s2 = emit(s, p).0;
    let st = s.strategy;
    if p == Phase::WriteSource && st.work_dir_required {
        let x = ScratchView { path: crate::dispatch::placed_source(s), dir: false };
        lemma_push_extends(s.resources, x);
        lemma_held_grows(s, SessionView { resources: s.resources.push(x), ..s });
        lemma_push_contains(s.resources, x);
    } else if p == Phase::Compile && st.artifact is Derived {
        let x = ScratchView { path: crate::dispatch::derived_executable(s), dir: false };
        lemma_push_extends(s.resources, x);
        lemma_held_grows(s, SessionView { resources: s.resources.push(x), ..s });
        lemma_push_contains(s.resources, x);
    } else if s2.phase != Phase::Done {
        lemma_held_grows(s, s2);
    }
}

proof fn lemma_enter_held(s: SessionView, p: Phase)
    requires
        paths_held(s),
        s.phase != Phase::Done,
    ensures
        paths_held(enter(s, p).0),
    decreases 7 - rank(p),
{
    if crate::dispatch::needed(s.strategy, p) || rank(p) >= 7 {
        lemma_emit_held(s, p);
    } else {
        lemma_enter_held(s, successor(p));
    }
}

proof fn lemma_record_held(s: SessionView, x: ScratchView, t: SessionView, p: Phase)
    requires
        paths_held(s),
        s.phase != Phase::Done,
        t.resources == s.resources.push(x),
        t.phase == s.phase,
        t.work_dir == s.work_dir || t.work_dir == Some(x.path) && x.dir,
        t.source_path == s.source_path || t.source_path == Some(x.path) && !x.dir,
        t.artifact_path == s.artifact_path || t.artifact_path == Some(x.path) && !x.dir,
        t.out_dir == s.out_dir || t.out_dir == Some(x.path) && x.dir,
    ensures
        paths_held(enter(t, p).0),
{
    lemma_push_extends(s.resources, x);
    lemma_push_contains(s.resources, x);
    lemma_held_grows(s, SessionView { resources: t.resources, ..s });
    lemma_enter_held(t, p);
}

/// Isolation: a submission names its own files only through paths of the
/// scratch resources it holds, which the driver creates fresh for it; every
/// transition keeps this so.
pub proof fn lemma_isolation(s: SessionView, e: EventView)
    requires
        paths_held(s),
    ensures
        paths_held(step(s, e).0),
{
    lemma_step_sound(s, e);
    if s.phase != Phase::Done {
        match e {
            EventView::Found(p) => {
                lemma_enter_held(SessionView { compiler: Some(p), ..s }, Phase::FindRunner);
                lemma_enter_held(SessionView { runner: Some(p), ..s }, Phase::MakeWorkDir);
            },
            EventView::Created(p) => {
                let d = ScratchView { path: p, dir: true };
                let f = ScratchView { path: p, dir: false };
                lemma_record_held(
                    s,
                    d,
                    SessionView { work_dir: Some(p), resources: s.resources.push(d), ..s },
                    Phase::WriteSource,
                );
                lemma_record_held(
                    s,
                    f,
                    SessionView { source_path: Some(p), resources: s.resources.push(f), ..s },
                    Phase::MakeArtifact,
                );
                lemma_record_held(
                    s,
                    d,
                    SessionView { out_dir: Some(p), resources: s.resources.push(d), ..s },
                    Phase::Compile,
                );
                lemma_record_held(
                    s,
                    f,
                    SessionView { artifact_path: Some(p), resources: s.resources.push(f), ..s },
                    Phase::Compile,
                );
            },
            EventView::Written => lemma_enter_held(s, Phase::MakeArtifact),
            EventView::Exited(_) => lemma_enter_held(s, Phase::Run),
            _ => {},
        }
    }
}

/// A new submission holds no paths yet, and its first action keeps it so.
pub proof fn lemma_initial_isolated(st: crate::strategy::StrategyView, source: Seq<u8>, stdin: Seq<u8>)
    ensures
        paths_held(crate::dispatch::initial(st, source, stdin)),
        paths_held(enter(crate::dispatch::initial(st, source, stdin), Phase::FindCompiler).0),
{
    lemma_enter_held(crate::dispatch::initial(st, source, stdin), Phase::FindCompiler);
}

proof fn lemma_enter_goes_on(s: SessionView, p: Phase)
    requires
        1 <= rank(p) <= 7,
    ensures
        enter(s, p).1 !is Finish,
    decreases 7 - rank(p),
{
    if !(crate::dispatch::needed(s.strategy, p) || rank(p) >= 7) {
        lemma_enter_goes_on(s, successor(p));
    }
}

/// Whether the resource that the driver creates in the current phase is a directory.
pub open spec fn creates_dir(s: SessionView) -> bool {
    s.phase == Phase::MakeWorkDir || (s.phase == Phase::MakeArtifact && s.strategy.artifact is Dir)
}

/// A path that the driver reports as created, while the submission waits
/// for one, is held from then on as one of its scratch resources.
pub proof fn lemma_created_is_held(s: SessionView, p: Seq<char>)
    requires
        s.phase == Phase::MakeWorkDir || s.phase == Phase::WriteSource || s.phase == Phase::MakeArtifact,
    ensures
        step(s, EventView::Created(p)).0.resources.contains(ScratchView { path: p, dir: creates_dir(s) }),
{
    let x = ScratchView { path: p, dir: creates_dir(s) };
    let s1 = if s.phase == Phase::MakeWorkDir {
        SessionView { work_dir: Some(p), resources: s.resources.push(x), ..s }
    } else if s.phase == Phase::WriteSource {
        SessionView { source_path: Some(p), resources: s.resources.push(x), ..s }
    } else if s.strategy.artifact is Dir {
        SessionView { out_dir: Some(p), resources: s.resources.push(x), ..s }
    } else {
        SessionView { artifact_path: Some(p), resources: s.resources.push(x), ..s }
    };
    let next = if s.phase == Phase::MakeWorkDir {
        Phase::WriteSource
    } else if s.phase == Phase::WriteSource {
        Phase::MakeArtifact
    } else {
        Phase::Compile
    };
    assert(step(s, EventView::Created(p)) == enter(s1, next));
    lemma_enter_sound(s1, next);
    lemma_enter_goes_on(s1, next);
    lemma_push_contains(s.resources, x);
    lemma_extends_contains(s1.resources, enter(s1, next).0.resources, x);
}

/// The length and characters of each tag.
proof fn lemma_tag_texts()
    ensures
        "python"@.len() == 6 && "python"@[0] == 'p' && "python"@[1] == 'y' && "python"@[2] == 't' && "python"@[3] == 'h' && "python"@[4] == 'o' && "python"@[5] == 'n',
        "javascript"@.len() == 10 && "javascript"@[0] == 'j' && "javascript"@[1] == 'a' && "javascript"@[2] == 'v' && "javascript"@[3] == 'a' && "javascript"@[4] == 's' && "javascript"@[5] == 'c' && "javascript"@[6] == 'r' && "javascript"@[7] == 'i' && "javascript"@[8] == 'p' && "javascript"@[9] == 't',
        "typescript"@.len() == 10 && "typescript"@[0] == 't' && "typescript"@[1] == 'y' && "typescript"@[2] == 'p' && "typescript"@[3] == 'e' && "typescript"@[4] == 's' && "typescript"@[5] == 'c' && "typescript"@[6] == 'r' && "typescript"@[7] == 'i' && "typescript"@[8] == 'p' && "typescript"@[9] == 't',
        "c"@.len() == 1 && "c"@[0] == 'c',
        "cpp"@.len() == 3 && "cpp"@[0] == 'c' && "cpp"@[1] == 'p' && "cpp"@[2] == 'p',
        "rust"@.len() == 4 && "rust"@[0] == 'r' && "rust"@[1] == 'u' && "rust"@[2] == 's' && "rust"@[3] == 't',
        "nix"@.len() == 3 && "nix"@[0] == 'n' && "nix"@[1] == 'i' && "nix"@[2] == 'x',
        "go"@.len() == 2 && "go"@[0] == 'g' && "go"@[1] == 'o',
        "zig"@.len() == 3 && "zig"@[0] == 'z' && "zig"@[1] == 'i' && "zig"@[2] == 'g',
        "d"@.len() == 1 && "d"@[0] == 'd',
        "scala"@.len() == 5 && "scala"@[0] == 's' && "scala"@[1] == 'c' && "scala"@[2] == 'a' && "scala"@[3] == 'l' && "scala"@[4] == 'a',
        "groovy"@.len() == 6 && "groovy"@[0] == 'g' && "groovy"@[1] == 'r' && "groovy"@[2] == 'o' && "groovy"@[3] == 'o' && "groovy"@[4] == 'v' && "groovy"@[5] == 'y',
        "dart"@.len() == 4 && "dart"@[0] == 'd' && "dart"@[1] == 'a' && "dart"@[2] == 'r' && "dart"@[3] == 't',
        "ruby"@.len() == 4 && "ruby"@[0] == 'r' && "ruby"@[1] == 'u' && "ruby"@[2] == 'b' && "ruby"@[3] == 'y',
        "lua"@.len() == 3 && "lua"@[0] == 'l' && "lua"@[1] == 'u' && "lua"@[2] == 'a',
        "julia"@.len() == 5 && "julia"@[0] == 'j' && "julia"@[1] == 'u' && "julia"@[2] == 'l' && "julia"@[3] == 'i' && "julia"@[4] == 'a',
        "r"@.len() == 1 && "r"@[0] == 'r',
        "perl"@.len() == 4 && "perl"@[0] == 'p' && "perl"@[1] == 'e' && "perl"@[2] == 'r' && "perl"@[3] == 'l',
        "crystal"@.len() == 7 && "crystal"@[0] == 'c' && "crystal"@[1] == 'r' && "crystal"@[2] == 'y' && "crystal"@[3] == 's' && "crystal"@[4] == 't' && "crystal"@[5] == 'a' && "crystal"@[6] == 'l',
        "haskell"@.len() == 7 && "haskell"@[0] == 'h' && "haskell"@[1] == 'a' && "haskell"@[2] == 's' && "haskell"@[3] == 'k' && "haskell"@[4] == 'e' && "haskell"@[5] == 'l' && "haskell"@[6] == 'l',
        "brainfuck"@.len() == 9 && "brainfuck"@[0] == 'b' && "brainfuck"@[1] == 'r' && "brainfuck"@[2] == 'a' && "brainfuck"@[3] == 'i' && "brainfuck"@[4] == 'n' && "brainfuck"@[5] == 'f' && "brainfuck"@[6] == 'u' && "brainfuck"@[7] == 'c' && "brainfuck"@[8] == 'k',
{
    reveal_strlit("python");
    reveal_strlit("javascript");
    reveal_strlit("typescript");
    reveal_strlit("c");
    reveal_strlit("cpp");
    reveal_strlit("rust");
    reveal_strlit("nix");
    reveal_strlit("go");
    reveal_strlit("zig");
    reveal_strlit("d");
    reveal_strlit("scala");
    reveal_strlit("groovy");
    reveal_strlit("dart");
    reveal_strlit("ruby");
    reveal_strlit("lua");
    reveal_strlit("julia");
    reveal_strlit("r");
    reveal_strlit("perl");
    reveal_strlit("crystal");
    reveal_strlit("haskell");
    reveal_strlit("brainfuck");
}

/// Every tag names its language.
pub proof fn lemma_tag_round_trip(l: Language)
    ensures
        language_of(tag_of(l)@) == Some(l),
{
    lemma_tag_texts();
}

/// TypeScript runs with the JavaScript strategy, unchanged.
pub proof fn lemma_typescript_is_javascript()
    ensures
        strategy_of(Language::Typescript) == strategy_of(Language::Javascript),
{
}

} // verus!
