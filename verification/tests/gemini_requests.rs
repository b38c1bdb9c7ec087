use tailor_resume::gemini::{
    considerations_text, list_available_models, prepare_pdf_upload, profile_parse_error,
    profile_system_instruction, reply_text, source_system_instruction, user_prompt, Candidate,
    Content, GeminiClient, GeminiReply, GeminiResponse, ModelFallback, Part, ReplyFormat,
    CONSIDERATIONS_HEADING, MAX_PDF_BYTES, NO_TEXT_IN_REPLY, PDF_TOO_LARGE, PROFILE_RULES,
    SOURCE_RULES, TEMPLATE_HEADING, USER_PROMPT_HEAD,
};

fn reply_with_text(text: &str) -> GeminiResponse {
    GeminiResponse {
        candidates: vec![Candidate {
            content: Some(Content { parts: vec![Part { text: Some(text.to_string()) }] }),
            finish_reason: None,
        }],
    }
}

#[test]
fn six_models_are_offered() {
    let models = list_available_models();
    assert_eq!(models.len(), 6);
    assert_eq!(models[0].id, "gemini-2.5-flash");
    assert!(models[0].recommended && models[0].free);
    assert_eq!(models[4].id, "gemini-2.5-pro");
    assert!(!models[4].free);
    assert_eq!(models[5].name, "Gemini 2.0 Pro");
    assert_eq!(models.iter().filter(|m| m.recommended).count(), 1);
}

#[test]
fn empty_model_means_default() {
    let c = GeminiClient::new("KEY", "");
    assert_eq!(c.model(), "gemini-2.5-flash");
    assert_eq!(c.api_key(), "KEY");
    let c = GeminiClient::new("KEY", "gemini-2.5-pro");
    assert_eq!(c.model(), "gemini-2.5-pro");
}

#[test]
fn request_url_has_model_and_key() {
    let c = GeminiClient::new("abc", "");
    assert_eq!(
        c.request_url("gemini-2.0-flash"),
        "https://generativelanguage.googleapis.com/v1beta/models/gemini-2.0-flash:generateContent?key=abc"
    );
}

#[test]
fn fallback_chain_after_default_model() {
    let c = GeminiClient::new("k", "gemini-2.5-flash");
    assert_eq!(
        c.models_to_try(),
        vec!["gemini-2.5-flash", "gemini-2.0-flash", "gemini-2.5-flash-lite", "gemini-2.0-flash-lite"]
    );
}

#[test]
fn fallback_chain_after_other_model() {
    let c = GeminiClient::new("k", "gemini-2.0-flash-lite");
    assert_eq!(
        c.models_to_try(),
        vec!["gemini-2.0-flash-lite", "gemini-2.5-flash", "gemini-2.0-flash", "gemini-2.5-flash-lite"]
    );
    let c = GeminiClient::new("k", "gemini-2.5-pro");
    assert_eq!(c.models_to_try().len(), 5);
    assert_eq!(c.models_to_try()[0], "gemini-2.5-pro");
}

#[test]
fn overloaded_model_falls_back_to_next() {
    let c = GeminiClient::new("k", "");
    let mut f = ModelFallback::new(&c, ReplyFormat::Text);
    let first = f.next_request().unwrap();
    assert_eq!(first.model, "gemini-2.5-flash");
    assert!(!first.pause_first);
    let done = f.record(GeminiReply::Rejected {
        code: 503,
        status: "503 Service Unavailable".to_string(),
        body: String::new(),
    });
    assert!(done.is_none());
    let second = f.next_request().unwrap();
    assert_eq!(second.model, "gemini-2.0-flash");
    assert!(second.pause_first);
    let done = f.record(GeminiReply::Delivered { response: reply_with_text("\\documentclass") });
    assert_eq!(done, Some(Ok("\\documentclass".to_string())));
}

#[test]
fn every_model_failing_reports_last_error() {
    let c = GeminiClient::new("k", "gemini-2.5-flash");
    let mut f = ModelFallback::new(&c, ReplyFormat::Text);
    let mut asked = Vec::new();
    while let Some(req) = f.next_request() {
        asked.push(req.model.clone());
        let reply = if asked.len() == 4 {
            GeminiReply::Rejected {
                code: 404,
                status: "404 Not Found".to_string(),
                body: "model not found".to_string(),
            }
        } else {
            GeminiReply::ConnectionFailed { error: "timeout".to_string() }
        };
        assert!(f.record(reply).is_none());
    }
    assert_eq!(asked.len(), 4);
    assert_eq!(
        f.exhausted_error(),
        "All Gemini models failed. Last error: Model gemini-2.0-flash-lite not available: model not found"
    );
}

#[test]
fn profile_format_names_model_only() {
    let c = GeminiClient::new("k", "gemini-2.0-flash");
    let mut f = ModelFallback::new(&c, ReplyFormat::Profile);
    f.next_request().unwrap();
    assert!(f
        .record(GeminiReply::Rejected {
            code: 400,
            status: "400 Bad Request".to_string(),
            body: "model is not supported".to_string(),
        })
        .is_none());
    f.next_request().unwrap();
    assert!(f.record(GeminiReply::Unreadable { error: "eof".to_string() }).is_none());
    f.next_request().unwrap();
    assert!(f
        .record(GeminiReply::Rejected {
            code: 429,
            status: "429 Too Many Requests".to_string(),
            body: String::new(),
        })
        .is_none());
    assert_eq!(
        f.exhausted_error(),
        "All Gemini models failed. Last error: gemini-2.5-flash-lite overloaded (HTTP 429 Too Many Requests). Trying next model..."
    );
}

#[test]
fn other_http_errors_stop_at_once() {
    let c = GeminiClient::new("k", "");
    let mut f = ModelFallback::new(&c, ReplyFormat::Text);
    f.next_request().unwrap();
    let done = f.record(GeminiReply::Rejected {
        code: 400,
        status: "400 Bad Request".to_string(),
        body: "API key not valid".to_string(),
    });
    assert_eq!(done, Some(Err("Gemini API error: API key not valid".to_string())));
}

#[test]
fn reply_without_text_is_an_error() {
    let empty = GeminiResponse { candidates: vec![] };
    assert_eq!(reply_text(&empty), Err(NO_TEXT_IN_REPLY.to_string()));
    let no_content = GeminiResponse { candidates: vec![Candidate { content: None, finish_reason: None }] };
    assert_eq!(reply_text(&no_content), Err("No text in Gemini response".to_string()));
    assert_eq!(reply_text(&reply_with_text("ok")), Ok("ok".to_string()));
}

#[test]
fn considerations_are_bulleted() {
    assert_eq!(considerations_text(&[]), "No specific considerations.");
    let cs = vec!["emphasize leadership".to_string(), "no frontend".to_string()];
    assert_eq!(considerations_text(&cs), "- emphasize leadership\n- no frontend");
}

#[test]
fn prompts_are_assembled_in_order() {
    let p = user_prompt("Backend engineer", &["Rust".to_string()]);
    assert_eq!(p, format!("{}Backend engineer{}- Rust", USER_PROMPT_HEAD, CONSIDERATIONS_HEADING));
    assert!(p.starts_with("Customize this resume for the job description below.\n"));
    assert!(p.contains("JOB DESCRIPTION:\nBackend engineer\n\nCONSIDERATIONS (must address these):\n- Rust"));
    let s = source_system_instruction("\\documentclass{x}");
    assert!(s.starts_with("You are a LaTeX resume writer."));
    assert!(s.ends_with("CANDIDATE'S ORIGINAL LATEX RESUME:\n\\documentclass{x}"));
    assert_eq!(s, format!("{}\\documentclass{{x}}", SOURCE_RULES));
    let t = profile_system_instruction("{}", "TPL");
    assert_eq!(t, format!("{}{{}}{}TPL", PROFILE_RULES, TEMPLATE_HEADING));
    assert!(t.ends_with("CANDIDATE PROFILE (JSON):\n{}\n\nTEMPLATE (use this exact structure):\nTPL"));
}

#[test]
fn pdf_upload_is_base64() {
    assert_eq!(prepare_pdf_upload(b"hello"), Ok("aGVsbG8=".to_string()));
    assert_eq!(prepare_pdf_upload(b""), Ok(String::new()));
    let big = vec![0u8; MAX_PDF_BYTES + 1];
    assert_eq!(prepare_pdf_upload(&big), Err(PDF_TOO_LARGE.to_string()));
}

#[test]
fn parse_error_quotes_reply_start() {
    assert_eq!(
        profile_parse_error("expected value", "oops"),
        "Parse profile JSON error: expected value. Response: oops"
    );
    let long = "x".repeat(600);
    let e = profile_parse_error("bad", &long);
    assert_eq!(e, format!("Parse profile JSON error: bad. Response: {}", "x".repeat(500)));
}
