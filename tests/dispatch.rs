use comphub::dispatch::{submit, Action, Event, Phase, Scratch, Session};
use comphub::error::InfraError;
use comphub::process::ProcessResult;
use comphub::strategy::{kotlin_strategy, odin_strategy};

fn exited(code: Option<i32>, stdout: &[u8], stderr: &[u8]) -> Event {
    Event::Exited(ProcessResult { code, stdout: stdout.to_vec(), stderr: stderr.to_vec() })
}

fn expect_resolve(a: Action, name: &str) {
    match a {
        Action::Resolve { tool } => assert_eq!(tool, name),
        _ => panic!("expected a lookup of {}", name),
    }
}

fn expect_create_file(a: Action, want_suffix: &str, want: &[u8]) {
    match a {
        Action::CreateFile { suffix, contents } => {
            assert_eq!(suffix, want_suffix);
            assert_eq!(contents, want.to_vec());
        }
        _ => panic!("expected a scratch file"),
    }
}

fn expect_spawn(a: Action, want_program: &str, want_args: &[&str], want_cwd: Option<&str>, want_stdin: &[u8]) {
    match a {
        Action::Spawn { program, args, cwd, stdin } => {
            assert_eq!(program, want_program);
            let want: Vec<String> = want_args.iter().map(|s| s.to_string()).collect();
            assert_eq!(args, want);
            assert_eq!(cwd.as_deref(), want_cwd);
            assert_eq!(stdin, want_stdin.to_vec());
        }
        _ => panic!("expected a child process"),
    }
}

fn finished(a: Action) -> (Result<String, InfraError>, Vec<Scratch>) {
    match a {
        Action::Finish { outcome, release } => (outcome, release),
        _ => panic!("expected the final action"),
    }
}

fn paths(release: &[Scratch]) -> Vec<(String, bool)> {
    release.iter().map(|r| (r.path.clone(), r.dir)).collect()
}

fn run_python(source: &str, stdin: &str, result: Event) -> (Result<String, InfraError>, Vec<Scratch>) {
    let (mut s, a) = submit("python", source, stdin).ok().unwrap();
    expect_resolve(a, "python3");
    let a = s.advance(Event::Found("/usr/bin/python3".to_string()));
    expect_create_file(a, ".py", source.as_bytes());
    let a = s.advance(Event::Created("/tmp/s1.py".to_string()));
    expect_spawn(a, "/usr/bin/python3", &["/tmp/s1.py"], None, stdin.as_bytes());
    finished(s.advance(result))
}

#[test]
fn python_hello_world() {
    let (outcome, release) = run_python("print(\"hello world\")", "", exited(Some(0), b"hello world\n", b""));
    assert_eq!(outcome.ok().unwrap(), "hello world\n");
    assert_eq!(paths(&release), vec![("/tmp/s1.py".to_string(), false)]);
}

#[test]
fn python_exit_code_is_run_error() {
    let (outcome, release) = run_python("import sys; sys.exit(2)", "", exited(Some(2), b"", b"boom"));
    match outcome {
        Err(InfraError::RunError { code, stderr }) => {
            assert_eq!(code, 2);
            assert_eq!(stderr, "boom");
        }
        _ => panic!("expected a run error"),
    }
    assert_eq!(release.len(), 1);
}

#[test]
fn python_signal_is_signal_error() {
    let (outcome, _) = run_python("import os; os.kill(os.getpid(), 9)", "", exited(None, b"", b"killed"));
    assert!(matches!(outcome, Err(InfraError::SignalError { .. })));
}

#[test]
fn python_stdin_is_handed_to_program() {
    let (outcome, _) = run_python("print(input())", "abc\nd", exited(Some(0), b"abc\n", b""));
    assert_eq!(outcome.ok().unwrap(), "abc\n");
}

#[test]
fn output_that_is_not_utf8_is_decode_error() {
    let (outcome, release) = run_python("x", "", exited(Some(0), &[0xff, 0xfe], b""));
    assert!(matches!(outcome, Err(InfraError::StringParseError)));
    assert_eq!(release.len(), 1);
}

#[test]
fn stderr_is_decoded_lossily() {
    let (outcome, _) = run_python("x", "", exited(Some(1), b"", &[b'a', 0xff, b'b']));
    match outcome {
        Err(InfraError::RunError { stderr, .. }) => assert_eq!(stderr, "a\u{FFFD}b"),
        _ => panic!("expected a run error"),
    }
}

#[test]
fn javascript_two_lines() {
    let src = "console.log(\"line 1\");console.log(\"line 2\");";
    let (mut s, a) = submit("javascript", src, "").ok().unwrap();
    expect_resolve(a, "bun");
    let a = s.advance(Event::Found("/bin/bun".to_string()));
    expect_create_file(a, ".js", src.as_bytes());
    let a = s.advance(Event::Created("/tmp/a.js".to_string()));
    expect_spawn(a, "/bin/bun", &["/tmp/a.js"], None, b"");
    let (outcome, _) = finished(s.advance(exited(Some(0), b"line 1\nline 2\n", b"")));
    assert_eq!(outcome.ok().unwrap(), "line 1\nline 2\n");
}

#[test]
fn typescript_runs_as_javascript() {
    let (_, a) = submit("typescript", "console.log(1)", "").ok().unwrap();
    expect_resolve(a, "bun");
}

#[test]
fn c_compiles_then_runs_with_stdin() {
    let src = "#include <stdio.h>\nint main(){int a,b;scanf(\"%d %d\",&a,&b);printf(\"%d\\n\",a+b);return 0;}";
    let (mut s, a) = submit("c", src, "7 3").ok().unwrap();
    expect_resolve(a, "zig");
    let a = s.advance(Event::Found("/opt/zig".to_string()));
    expect_create_file(a, ".c", src.as_bytes());
    let a = s.advance(Event::Created("/tmp/p.c".to_string()));
    assert!(matches!(a, Action::ReservePath));
    let a = s.advance(Event::Created("/tmp/exe".to_string()));
    expect_spawn(a, "/opt/zig", &["cc", "/tmp/p.c", "-o", "/tmp/exe"], None, b"");
    assert_eq!(s.phase, Phase::Compile);
    let a = s.advance(exited(Some(0), b"", b""));
    expect_spawn(a, "/tmp/exe", &[], None, b"7 3");
    let (outcome, release) = finished(s.advance(exited(Some(0), b"10\n", b"")));
    assert_eq!(outcome.ok().unwrap(), "10\n");
    assert_eq!(
        paths(&release),
        vec![("/tmp/exe".to_string(), false), ("/tmp/p.c".to_string(), false)]
    );
    assert_eq!(s.phase, Phase::Done);
    assert!(s.resources.is_empty());
}

#[test]
fn rust_hello_world() {
    let src = "fn main(){println!(\"Hello, World!\");}";
    let (mut s, a) = submit("rust", src, "").ok().unwrap();
    expect_resolve(a, "rustc");
    s.advance(Event::Found("/bin/rustc".to_string()));
    s.advance(Event::Created("/tmp/m.rs".to_string()));
    let a = s.advance(Event::Created("/tmp/m".to_string()));
    expect_spawn(a, "/bin/rustc", &["/tmp/m.rs", "--crate-name", "temp", "-o", "/tmp/m"], None, b"");
    s.advance(exited(Some(0), b"", b""));
    let (outcome, _) = finished(s.advance(exited(Some(0), b"Hello, World!\n", b"")));
    assert_eq!(outcome.ok().unwrap(), "Hello, World!\n");
}

#[test]
fn cpp_syntax_error_is_compile_error() {
    let (mut s, a) = submit("cpp", "int main(){return 0}", "").ok().unwrap();
    expect_resolve(a, "clang++");
    s.advance(Event::Found("/bin/clang++".to_string()));
    s.advance(Event::Created("/tmp/q.cpp".to_string()));
    s.advance(Event::Created("/tmp/q".to_string()));
    let (outcome, release) = finished(s.advance(exited(Some(1), b"", b"expected ';'")));
    let e = outcome.err().unwrap();
    assert!(matches!(e, InfraError::CompilationError(_)));
    assert_eq!(e.message(), "Compilation failed: expected ';'");
    assert_eq!(paths(&release), vec![("/tmp/q".to_string(), false), ("/tmp/q.cpp".to_string(), false)]);
}

#[test]
fn missing_compiler_is_tool_missing() {
    let (mut s, _) = submit("haskell", "main = print 1", "").ok().unwrap();
    let (outcome, release) = finished(s.advance(Event::NotFound));
    let e = outcome.err().unwrap();
    assert_eq!(e.message(), "Failed to find the binary: ghc");
    assert!(release.is_empty());
}

#[test]
fn missing_runner_is_tool_missing() {
    let (mut s, a) = submit("scala", "object Main", "").ok().unwrap();
    expect_resolve(a, "scalac");
    let a = s.advance(Event::Found("/bin/scalac".to_string()));
    expect_resolve(a, "scala");
    let (outcome, _) = finished(s.advance(Event::NotFound));
    assert_eq!(outcome.err().unwrap().message(), "Failed to find the binary: scala");
}

#[test]
fn scala_compiles_into_class_directory() {
    let (mut s, _) = submit("scala", "object Main", "in").ok().unwrap();
    s.advance(Event::Found("/bin/scalac".to_string()));
    let a = s.advance(Event::Found("/bin/scala".to_string()));
    expect_create_file(a, ".scala", b"object Main");
    let a = s.advance(Event::Created("/tmp/m.scala".to_string()));
    assert!(matches!(a, Action::CreateDir));
    let a = s.advance(Event::Created("/tmp/classes".to_string()));
    expect_spawn(a, "/bin/scalac", &["/tmp/m.scala", "-d", "/tmp/classes"], None, b"");
    let a = s.advance(exited(Some(0), b"", b""));
    expect_spawn(a, "/bin/scala", &["-cp", "/tmp/classes", "Main"], None, b"in");
    let (outcome, release) = finished(s.advance(exited(Some(0), b"ok", b"")));
    assert_eq!(outcome.ok().unwrap(), "ok");
    assert_eq!(
        paths(&release),
        vec![("/tmp/classes".to_string(), true), ("/tmp/m.scala".to_string(), false)]
    );
}

#[test]
fn groovy_passes_source_back_to_runner() {
    let (mut s, _) = submit("groovy", "println 1", "").ok().unwrap();
    s.advance(Event::Found("/bin/groovyc".to_string()));
    s.advance(Event::Found("/bin/groovy".to_string()));
    s.advance(Event::Created("/tmp/g.groovy".to_string()));
    let a = s.advance(Event::Created("/tmp/out".to_string()));
    expect_spawn(
        a,
        "/bin/groovyc",
        &["/tmp/g.groovy", "--classpath", "/tmp/out", "-d", "/tmp/out"],
        None,
        b"",
    );
    let a = s.advance(exited(Some(0), b"", b""));
    expect_spawn(a, "/bin/groovy", &["-cp", "/tmp/out", "/tmp/g.groovy"], None, b"");
}

#[test]
fn go_runs_in_private_directory() {
    let (mut s, a) = submit("go", "package main", "x").ok().unwrap();
    expect_resolve(a, "go");
    let a = s.advance(Event::Found("/bin/go".to_string()));
    assert!(matches!(a, Action::CreateDir));
    let a = s.advance(Event::Created("/tmp/w".to_string()));
    match a {
        Action::WriteFile { path, contents } => {
            assert_eq!(path, "/tmp/w/program.go");
            assert_eq!(contents, b"package main".to_vec());
        }
        _ => panic!("expected a file write"),
    }
    let a = s.advance(Event::Written);
    expect_spawn(a, "/bin/go", &["run", "/tmp/w/program.go"], Some("/tmp/w"), b"x");
    let (outcome, release) = finished(s.advance(exited(Some(1), b"", b"syntax error")));
    match outcome {
        Err(InfraError::CompileOrRunError { code, stderr }) => {
            assert_eq!(code, 1);
            assert_eq!(stderr, "syntax error");
        }
        _ => panic!("expected a compile-or-run error"),
    }
    assert_eq!(
        paths(&release),
        vec![("/tmp/w/program.go".to_string(), false), ("/tmp/w".to_string(), true)]
    );
}

#[test]
fn brainfuck_executable_is_released() {
    let src = "++++++++[>++++++++<-]>+.";
    let (mut s, a) = submit("brainfuck", src, "").ok().unwrap();
    expect_resolve(a, "bfc");
    let a = s.advance(Event::Found("/bin/bfc".to_string()));
    assert!(matches!(a, Action::CreateDir));
    s.advance(Event::Created("/tmp/b".to_string()));
    let a = s.advance(Event::Written);
    expect_spawn(a, "/bin/bfc", &["/tmp/b/program.bf"], Some("/tmp/b"), b"");
    let a = s.advance(exited(Some(0), b"", b""));
    expect_spawn(a, "/tmp/b/program", &[], Some("/tmp/b"), b"");
    let (outcome, release) = finished(s.advance(exited(Some(0), b"A", b"")));
    assert_eq!(outcome.ok().unwrap(), "A");
    assert_eq!(
        paths(&release),
        vec![
            ("/tmp/b/program".to_string(), false),
            ("/tmp/b/program.bf".to_string(), false),
            ("/tmp/b".to_string(), true),
        ]
    );
}

#[test]
fn d_source_gets_module_line() {
    let (mut s, a) = submit("d", "void main(){}", "").ok().unwrap();
    expect_resolve(a, "dmd");
    let a = s.advance(Event::Found("/bin/dmd".to_string()));
    expect_create_file(a, ".d", b"module temp;\nvoid main(){}");
    let a = s.advance(Event::Created("/tmp/t.d".to_string()));
    expect_spawn(a, "/bin/dmd", &["-run", "/tmp/t.d"], None, b"");
}

#[test]
fn nix_raw_output_without_newline() {
    let (mut s, a) = submit("nix", "\"Hello, World!\"", "").ok().unwrap();
    expect_resolve(a, "nix");
    s.advance(Event::Found("/bin/nix".to_string()));
    let a = s.advance(Event::Created("/tmp/e.nix".to_string()));
    expect_spawn(a, "/bin/nix", &["eval", "--file", "/tmp/e.nix", "--raw"], None, b"");
    let (outcome, _) = finished(s.advance(exited(Some(0), b"Hello, World!", b"")));
    assert_eq!(outcome.ok().unwrap(), "Hello, World!");
}

#[test]
fn nix_evaluation_failure_is_compile_error() {
    let (mut s, _) = submit("nix", "1 +", "").ok().unwrap();
    s.advance(Event::Found("/bin/nix".to_string()));
    s.advance(Event::Created("/tmp/e.nix".to_string()));
    let (outcome, _) = finished(s.advance(exited(Some(1), b"", b"syntax error")));
    assert!(matches!(outcome, Err(InfraError::CompilationError(_))));
}

#[test]
fn unknown_language_is_rejected_before_any_action() {
    let r = submit("nope", "x", "");
    match r {
        Err(e) => {
            assert!(matches!(e, InfraError::UnsupportedLanguage(_)));
            assert_eq!(e.message(), "nope language is not supported");
        }
        Ok(_) => panic!("expected a rejection"),
    }
}

#[test]
fn io_failure_releases_what_was_acquired() {
    let (mut s, _) = submit("dart", "void main(){}", "").ok().unwrap();
    s.advance(Event::Found("/bin/dart".to_string()));
    s.advance(Event::Created("/tmp/x.dart".to_string()));
    let (outcome, release) = finished(s.advance(Event::Failed("disk full".to_string())));
    assert_eq!(outcome.err().unwrap().message(), "IO error: disk full");
    assert_eq!(paths(&release), vec![("/tmp/x.dart".to_string(), false)]);
}

#[test]
fn event_after_finish_releases_nothing() {
    let (mut s, _) = submit("lua", "print(1)", "").ok().unwrap();
    let (_, _) = finished(s.advance(Event::NotFound));
    let (outcome, release) = finished(s.advance(Event::Written));
    assert!(matches!(outcome, Err(InfraError::IoError(_))));
    assert!(release.is_empty());
}

#[test]
fn empty_source_and_stdin_are_accepted() {
    let (outcome, _) = run_python("", "", exited(Some(0), b"", b""));
    assert_eq!(outcome.ok().unwrap(), "");
}

#[test]
fn kotlin_runs_main_class() {
    let mut s = Session::new(kotlin_strategy(), "fun main() {}", "");
    let a = s.start();
    expect_resolve(a, "kotlinc");
    s.advance(Event::Found("/bin/kotlinc".to_string()));
    s.advance(Event::Found("/bin/kotlin".to_string()));
    s.advance(Event::Created("/tmp/k.kt".to_string()));
    s.advance(Event::Created("/tmp/kc".to_string()));
    let a = s.advance(exited(Some(0), b"", b""));
    expect_spawn(a, "/bin/kotlin", &["-cp", "/tmp/kc", "MainKt"], None, b"");
}

#[test]
fn odin_compiles_and_runs_in_one_step() {
    let mut s = Session::new(odin_strategy(), "package main", "");
    let a = s.start();
    expect_resolve(a, "odin");
    s.advance(Event::Found("/bin/odin".to_string()));
    let a = s.advance(Event::Created("/tmp/o.odin".to_string()));
    expect_spawn(a, "/bin/odin", &["run", "/tmp/o.odin", "-file"], None, b"");
}

#[test]
fn identical_submissions_use_their_own_paths() {
    let (mut a, first_a) = submit("cpp", "int main(){}", "1").ok().unwrap();
    let (mut b, first_b) = submit("cpp", "int main(){}", "1").ok().unwrap();
    expect_resolve(first_a, "clang++");
    expect_resolve(first_b, "clang++");
    a.advance(Event::Found("/bin/clang++".to_string()));
    b.advance(Event::Found("/bin/clang++".to_string()));
    a.advance(Event::Created("/tmp/a.cpp".to_string()));
    b.advance(Event::Created("/tmp/b.cpp".to_string()));
    let compile_a = a.advance(Event::Created("/tmp/a".to_string()));
    let compile_b = b.advance(Event::Created("/tmp/b".to_string()));
    expect_spawn(compile_a, "/bin/clang++", &["/tmp/a.cpp", "-o", "/tmp/a"], None, b"");
    expect_spawn(compile_b, "/bin/clang++", &["/tmp/b.cpp", "-o", "/tmp/b"], None, b"");
    let run_b = b.advance(exited(Some(0), b"", b""));
    expect_spawn(run_b, "/tmp/b", &[], None, b"1");
    let (outcome_a, release_a) = finished(a.advance(exited(Some(1), b"", b"error")));
    assert!(outcome_a.is_err());
    assert_eq!(paths(&release_a), vec![("/tmp/a".to_string(), false), ("/tmp/a.cpp".to_string(), false)]);
    let (outcome_b, release_b) = finished(b.advance(exited(Some(0), b"b\n", b"")));
    assert_eq!(outcome_b.ok().unwrap(), "b\n");
    assert_eq!(paths(&release_b), vec![("/tmp/b".to_string(), false), ("/tmp/b.cpp".to_string(), false)]);
}
