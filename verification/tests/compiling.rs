use std::cell::RefCell;

use tailor_resume::compile::{
    client_failure, finish_offline_retry, offline_retry_source, online_upload, online_save_result, try_compile_offline, CompileResult,
    OfflineStep,
    OfflineAction, OfflineCompile, OfflineEvent, OnlineCompile, OnlineReply, OnlineStep,
    SaveOutcome,
};

fn failure(log: &str, error: &str) -> CompileResult {
    CompileResult { success: false, pdf_path: None, log: log.to_string(), error: Some(error.to_string()) }
}

fn success(path: &str) -> CompileResult {
    CompileResult { success: true, pdf_path: Some(path.to_string()), log: "ok".to_string(), error: None }
}

/// Runs the offline retry protocol with `compile` standing for pdfLaTeX.
fn run_offline(latex: &str, compile: impl Fn(&str) -> CompileResult) -> CompileResult {
    match try_compile_offline(latex, compile(latex)) {
        OfflineStep::Done(r) => r,
        OfflineStep::Retry { first, source } => finish_offline_retry(first, compile(&source)),
    }
}

fn pdf_body() -> Vec<u8> {
    let mut body = b"%PDF-1.5\n".to_vec();
    body.extend(std::iter::repeat(b'x').take(200));
    body
}

#[test]
fn second_server_delivers_after_gateway_error() {
    let mut c = OnlineCompile::new();
    assert_eq!(
        c.next_url().unwrap(),
        "https://latexonline.cc/data?target=resume.tex&command=pdflatex&force=true"
    );
    let step = c.record(OnlineReply::Received {
        code: 502,
        status: "502 Bad Gateway".to_string(),
        body: b"bad gateway".to_vec(),
    });
    assert!(matches!(step, OnlineStep::TryNext));
    assert_eq!(
        c.next_url().unwrap(),
        "https://texlive2020.latexonline.cc/data?target=resume.tex&command=pdflatex&force=true"
    );
    let body = pdf_body();
    match c.record(OnlineReply::Received { code: 200, status: "200 OK".to_string(), body: body.clone() }) {
        OnlineStep::SavePdf { pdf } => assert_eq!(pdf, body),
        _ => panic!("expected the PDF to be saved"),
    }
    assert!(c.next_url().is_none());
}

#[test]
fn html_pages_and_connection_errors_exhaust_servers() {
    let mut c = OnlineCompile::new();
    c.next_url().unwrap();
    let step = c.record(OnlineReply::Received {
        code: 500,
        status: "500 Internal Server Error".to_string(),
        body: b"<html><body>down</body></html>".to_vec(),
    });
    assert!(matches!(step, OnlineStep::TryNext));
    c.next_url().unwrap();
    let step = c.record(OnlineReply::ConnectionFailed { error: "dns".to_string() });
    assert!(matches!(step, OnlineStep::TryNext));
    assert!(c.next_url().is_none());
    let r = c.exhausted_result();
    assert!(!r.success);
    assert_eq!(r.log, "");
    assert_eq!(
        r.error.unwrap(),
        "All online LaTeX servers are currently unavailable. Connection to https://texlive2020.latexonline.cc failed: dns. Try switching to Offline (TinyTeX) mode in Settings, or try again later."
    );
}

#[test]
fn latex_errors_end_online_compilation() {
    let mut c = OnlineCompile::new();
    c.next_url().unwrap();
    match c.record(OnlineReply::Received {
        code: 400,
        status: "400 Bad Request".to_string(),
        body: b"! Undefined control sequence.".to_vec(),
    }) {
        OnlineStep::Finish { result } => {
            assert!(!result.success);
            assert_eq!(result.log, "! Undefined control sequence.");
            assert_eq!(
                result.error.unwrap(),
                "Online compilation failed (HTTP 400 Bad Request). The LaTeX may have errors - check the log. Or try switching to Offline mode in Settings."
            );
        }
        _ => panic!("expected the compilation to end"),
    }
}

#[test]
fn short_pdf_reply_is_not_a_pdf() {
    let mut c = OnlineCompile::new();
    c.next_url().unwrap();
    let step = c.record(OnlineReply::Received { code: 200, status: "200 OK".to_string(), body: b"%PDF tiny".to_vec() });
    assert!(matches!(step, OnlineStep::Finish { .. }));
}

#[test]
fn read_failure_keeps_earlier_log() {
    let mut c = OnlineCompile::new();
    c.next_url().unwrap();
    c.record(OnlineReply::Received { code: 503, status: "503 Service Unavailable".to_string(), body: b"busy".to_vec() });
    c.next_url().unwrap();
    c.record(OnlineReply::ReadFailed { error: "reset".to_string() });
    let r = c.exhausted_result();
    assert_eq!(r.log, "busy");
    assert!(r.error.unwrap().contains("Failed reading response from https://texlive2020.latexonline.cc: reset"));
}

#[test]
fn saving_results() {
    let r = online_save_result(SaveOutcome::Saved { path: "/out/Resume.pdf".to_string() });
    assert!(r.success);
    assert_eq!(r.pdf_path.unwrap(), "/out/Resume.pdf");
    assert_eq!(r.log, "Compiled online via latexonline.cc (pdflatex)");
    let r = online_save_result(SaveOutcome::WriteFailed { error: "denied".to_string() });
    assert_eq!(r.error.unwrap(), "Failed to write PDF: denied");
    let r = online_save_result(SaveOutcome::FolderFailed { error: "ro".to_string() });
    assert_eq!(r.error.unwrap(), "Failed to create output folder: ro");
    let r = client_failure("tls");
    assert_eq!(r.error.unwrap(), "Failed to create HTTP client: tls");
}

#[test]
fn offline_compilation_success_collects_logs() {
    let mut c = OfflineCompile::new("\\documentclass{article}", "/out");
    assert!(matches!(c.next_action(), OfflineAction::LocateCompiler));
    c.record(OfflineEvent::Present { found: true });
    assert!(matches!(c.next_action(), OfflineAction::CreateTempDir));
    c.record(OfflineEvent::Done);
    match c.next_action() {
        OfflineAction::WriteSource { source } => assert_eq!(source, "\\documentclass{article}"),
        _ => panic!("expected the source to be written"),
    }
    c.record(OfflineEvent::Done);
    assert!(matches!(c.next_action(), OfflineAction::RunPdflatex));
    c.record(OfflineEvent::Output { stdout: "one\n".to_string(), stderr: String::new() });
    assert!(matches!(c.next_action(), OfflineAction::RunPdflatex));
    c.record(OfflineEvent::Output { stdout: "two\n".to_string(), stderr: "warn\n".to_string() });
    assert!(matches!(c.next_action(), OfflineAction::ReadLog));
    c.record(OfflineEvent::LogText { text: Some("LOG".to_string()) });
    assert!(matches!(c.next_action(), OfflineAction::CheckPdf));
    c.record(OfflineEvent::Present { found: true });
    match c.next_action() {
        OfflineAction::CreateOutputFolder { folder } => assert_eq!(folder, "/out"),
        _ => panic!("expected the output folder"),
    }
    c.record(OfflineEvent::Done);
    assert!(matches!(c.next_action(), OfflineAction::CopyPdf));
    c.record(OfflineEvent::Copied { path: "/out/Resume.pdf".to_string() });
    assert!(matches!(c.next_action(), OfflineAction::Finish));
    let r = c.into_result();
    assert!(r.success);
    assert_eq!(r.pdf_path.unwrap(), "/out/Resume.pdf");
    assert_eq!(r.log, "--- Pass 1 ---\none\n--- Pass 2 ---\ntwo\nwarn\n\n--- LaTeX Log ---\nLOG");
    assert!(r.error.is_none());
}

#[test]
fn offline_compilation_without_pdflatex() {
    let mut c = OfflineCompile::new("x", "/out");
    c.record(OfflineEvent::Present { found: false });
    assert!(matches!(c.next_action(), OfflineAction::Finish));
    let r = c.into_result();
    assert_eq!(r.error.unwrap(), "pdfLaTeX not found. Please install TinyTeX in Settings first.");
    assert_eq!(r.log, "");
}

#[test]
fn offline_compilation_without_pdf() {
    let mut c = OfflineCompile::new("x", "/out");
    c.record(OfflineEvent::Present { found: true });
    c.record(OfflineEvent::Done);
    c.record(OfflineEvent::Done);
    c.record(OfflineEvent::Output { stdout: "a".to_string(), stderr: String::new() });
    c.record(OfflineEvent::Failed { error: "killed".to_string() });
    let r = c.into_result();
    assert_eq!(r.log, "--- Pass 1 ---\na");
    assert_eq!(r.error.unwrap(), "pdflatex execution error: killed");
    let mut c = OfflineCompile::new("x", "/out");
    c.record(OfflineEvent::Present { found: true });
    c.record(OfflineEvent::Done);
    c.record(OfflineEvent::Done);
    c.record(OfflineEvent::Output { stdout: String::new(), stderr: String::new() });
    c.record(OfflineEvent::Output { stdout: String::new(), stderr: String::new() });
    c.record(OfflineEvent::LogText { text: None });
    c.record(OfflineEvent::Present { found: false });
    let r = c.into_result();
    assert_eq!(r.error.unwrap(), "PDF was not generated. Check the log for LaTeX errors.");
    assert_eq!(r.log, "--- Pass 1 ---\n--- Pass 2 ---\n");
}

#[test]
fn retry_only_for_missing_style_files() {
    let src = "\\usepackage{fontawesome5}\nbody";
    let missing = failure("! LaTeX Error: File `fontawesome5.sty' not found.", "PDF was not generated.");
    assert_eq!(offline_retry_source(&missing, src), Some("body".to_string()));
    let other = failure("! Undefined control sequence.", "PDF was not generated.");
    assert_eq!(offline_retry_source(&other, src), None);
    assert_eq!(offline_retry_source(&missing, "plain body"), None);
    assert_eq!(offline_retry_source(&success("/p"), src), None);
}

#[test]
fn offline_retry_takes_successful_second_run() {
    let calls = RefCell::new(Vec::new());
    let r = run_offline("\\usepackage{fontawesome}\nbody", |src: &str| {
        calls.borrow_mut().push(src.to_string());
        if src.contains("fontawesome") {
            failure("File `fontawesome.sty' not found", "PDF was not generated.")
        } else {
            success("/out/Resume.pdf")
        }
    });
    assert!(r.success);
    assert_eq!(*calls.borrow(), vec!["\\usepackage{fontawesome}\nbody".to_string(), "body".to_string()]);
}

#[test]
fn offline_retry_failure_keeps_first_result() {
    let calls = RefCell::new(0);
    let r = run_offline("\\usepackage{fontawesome}\nbody", |src: &str| {
        *calls.borrow_mut() += 1;
        failure("File `x.sty' not found", &format!("failed {}", src.len()))
    });
    assert_eq!(*calls.borrow(), 2);
    assert_eq!(r.error.unwrap(), "failed 29");
}

#[test]
fn offline_success_needs_no_retry() {
    let calls = RefCell::new(0);
    let r = run_offline("body", |_src: &str| {
        *calls.borrow_mut() += 1;
        success("/out/Resume.pdf")
    });
    assert!(r.success);
    assert_eq!(*calls.borrow(), 1);
}

#[test]
fn upload_is_archive_of_stripped_source() {
    let tar = online_upload("\\usepackage{fontawesome5}\n\\faGithub x").unwrap();
    assert_eq!(&tar[0..10], b"resume.tex");
    assert_eq!(&tar[124..136], b"00000000010\0");
    assert_eq!(&tar[512..520], b"GitHub x");
    assert_eq!(tar.len(), 512 + 512 + 1024);
}

#[test]
fn offline_step_after_success_is_done() {
    let step = try_compile_offline("\\usepackage{fontawesome5}\nbody", success("/out/Resume.pdf"));
    assert!(matches!(step, OfflineStep::Done(r) if r.success));
    let missing = failure("File `fontawesome5.sty' not found.", "PDF was not generated.");
    match try_compile_offline("\\usepackage{fontawesome5}\nbody", missing) {
        OfflineStep::Retry { first, source } => {
            assert_eq!(source, "body");
            assert!(!first.success);
        }
        OfflineStep::Done(_) => panic!("expected a retry"),
    }
    let kept = finish_offline_retry(failure("a", "first"), failure("b", "second"));
    assert_eq!(kept.error.unwrap(), "first");
}
