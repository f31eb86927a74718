use comphub::api::{accept, respond, ApiError, CompilerRequest};
use comphub::config::{parse_port, Config};
use comphub::error::InfraError;
use comphub::language::Language;
use comphub::process::{check_compile, decode_output, finish_run, FailureClass, ProcessResult};
use comphub::strategy::{strategy_for, ArtifactKind};
use comphub::text::{bytes_equal, text_equal};

#[test]
fn tags_parse_exactly() {
    assert_eq!(Language::parse("python"), Some(Language::Python));
    assert_eq!(Language::parse("brainfuck"), Some(Language::Brainfuck));
    assert_eq!(Language::parse("typescript"), Some(Language::Typescript));
    assert_eq!(Language::parse("nope"), None);
    assert_eq!(Language::parse("PYTHON"), None);
    assert_eq!(Language::parse(""), None);
    assert_eq!(Language::parse("kotlin"), None);
}

#[test]
fn tags_round_trip() {
    for l in [Language::C, Language::Cpp, Language::R, Language::Haskell, Language::Crystal] {
        assert_eq!(Language::parse(l.tag()), Some(l));
    }
}

#[test]
fn from_str_rejects_unknown_tag() {
    let l: Language = "perl".parse().ok().unwrap();
    assert_eq!(l, Language::Perl);
    match "cobol".parse::<Language>() {
        Err(e) => assert_eq!(e.message(), "cobol language is not supported"),
        Ok(_) => panic!("expected a rejection"),
    }
    match "nope".parse::<Language>() {
        Err(InfraError::UnsupportedLanguage(detail)) => {
            assert_eq!(detail, "nope language is not supported")
        }
        _ => panic!("expected the unsupported-language error"),
    }
}

#[test]
fn strategy_suffixes() {
    assert_eq!(strategy_for(Language::Python).suffix, ".py");
    assert_eq!(strategy_for(Language::R).suffix, ".R");
    assert_eq!(strategy_for(Language::Brainfuck).suffix, ".bf");
    assert_eq!(strategy_for(Language::Julia).suffix, ".jl");
    assert_eq!(strategy_for(Language::D).preamble, "module temp;\n");
    assert_eq!(strategy_for(Language::C).preamble, "");
    assert!(strategy_for(Language::Nix).raw_output);
    assert!(strategy_for(Language::Go).work_dir_required);
    assert!(strategy_for(Language::Ruby).compile.is_none());
    assert!(matches!(strategy_for(Language::Haskell).artifact, ArtifactKind::File));
    assert!(matches!(strategy_for(Language::Groovy).artifact, ArtifactKind::Dir));
    assert_eq!(strategy_for(Language::Zig).run_failure, FailureClass::CompileOrRun);
}

#[test]
fn run_error_message_names_code() {
    let e = InfraError::RunError { code: 2, stderr: "bad".to_string() };
    assert_eq!(e.message(), "Program execution failed with status code: 2\nError: bad");
    let e = InfraError::CompileOrRunError { code: -11, stderr: String::new() };
    assert_eq!(e.message(), "Compilation or execution failed with status code: -11\nError: ");
    let e = InfraError::RunError { code: 130, stderr: "x".to_string() };
    assert_eq!(e.message(), "Program execution failed with status code: 130\nError: x");
    let e = InfraError::SignalError { stderr: "segv".to_string() };
    assert_eq!(e.message(), "Program terminated by signal\nError: segv");
    assert_eq!(
        InfraError::StringParseError.message(),
        "Failed to convert string: output is not valid UTF-8"
    );
}

#[test]
fn decode_keeps_text_exactly() {
    assert_eq!(decode_output("héllo\n".as_bytes().to_vec()).ok().unwrap(), "héllo\n");
    assert!(decode_output(vec![0xc3]).is_err());
}

#[test]
fn compile_step_decisions() {
    let ok = ProcessResult { code: Some(0), stdout: vec![], stderr: vec![] };
    assert!(check_compile(&ok).is_none());
    let bad = ProcessResult { code: Some(1), stdout: b"out".to_vec(), stderr: b"err".to_vec() };
    match check_compile(&bad) {
        Some(InfraError::CompilationError(d)) => assert_eq!(d, "err"),
        _ => panic!("expected a compile error"),
    }
    let sig = ProcessResult { code: None, stdout: vec![], stderr: vec![] };
    assert!(matches!(check_compile(&sig), Some(InfraError::SignalError { .. })));
}

#[test]
fn run_step_discards_stdout_on_failure() {
    let r = ProcessResult { code: Some(3), stdout: b"partial".to_vec(), stderr: b"e".to_vec() };
    match finish_run(FailureClass::Run, r) {
        Err(e) => assert_eq!(e.message(), "Program execution failed with status code: 3\nError: e"),
        Ok(_) => panic!("expected a run error"),
    }
}

#[test]
fn port_parsing() {
    assert_eq!(parse_port("5000"), Some(5000));
    assert_eq!(parse_port("+80"), Some(80));
    assert_eq!(parse_port("0"), Some(0));
    assert_eq!(parse_port("65535"), Some(65535));
    assert_eq!(parse_port("007"), Some(7));
    assert_eq!(parse_port("65536"), None);
    assert_eq!(parse_port("99999999999"), None);
    assert_eq!(parse_port(""), None);
    assert_eq!(parse_port("+"), None);
    assert_eq!(parse_port("-1"), None);
    assert_eq!(parse_port("80a"), None);
    for s in ["1", "443", "+8080", "x", " 1", "70000"] {
        assert_eq!(parse_port(s), s.parse::<u16>().ok());
    }
}

#[test]
fn config_defaults() {
    let c = Config::from_settings(None, None).unwrap();
    assert_eq!(c.server_host(), "0.0.0.0");
    assert_eq!(c.server_port(), 5000);
    let c = Config::from_settings(Some("127.0.0.1".to_string()), Some("8080".to_string())).unwrap();
    assert_eq!(c.server_host(), "127.0.0.1");
    assert_eq!(c.server_port(), 8080);
    assert!(Config::from_settings(None, Some("port".to_string())).is_none());
}

#[test]
fn unsupported_language_is_client_error() {
    let req = CompilerRequest::new("nope".to_string(), "x".to_string(), String::new());
    match accept(&req) {
        Err(e) => {
            assert_eq!(e.status(), 400);
            assert_eq!(e.message(), "Invalid input: nope language is not supported");
        }
        Ok(_) => panic!("expected a rejection"),
    }
}

#[test]
fn failures_are_server_errors() {
    let r = respond(Err(InfraError::RunError { code: 2, stderr: String::new() }));
    match r {
        Err(e) => {
            assert_eq!(e.status(), 500);
            assert_eq!(
                e.message(),
                "Internal server error: Program execution failed with status code: 2\nError: "
            );
        }
        Ok(_) => panic!("expected an error"),
    }
    let r = respond(Ok("hello world\n".to_string())).ok().unwrap();
    assert_eq!(r.result, "hello world\n");
}

#[test]
fn api_error_statuses() {
    assert_eq!(ApiError::NotFound("x".to_string()).status(), 404);
    assert_eq!(ApiError::BadRequest("x".to_string()).message(), "Bad request: x");
    assert_eq!(ApiError::NotAcceptible("x".to_string()).status(), 406);
    let e = ApiError::from_infra(InfraError::CompilerNotFound("zig".to_string()));
    assert_eq!(e.status(), 500);
    assert_eq!(e.message(), "Internal server error: Failed to find the binary: zig");
}

#[test]
fn text_comparisons() {
    assert!(text_equal("héllo", "héllo"));
    assert!(!text_equal("a", "b"));
    assert!(!text_equal("a", "ab"));
    assert!(bytes_equal(&[1, 2], &[1, 2]));
    assert!(!bytes_equal(&[1, 2], &[1, 3]));
}
