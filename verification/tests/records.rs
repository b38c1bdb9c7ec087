use tailor_resume::tinytex::{tinytex_packages, where_output_path, which_output_path};
use tailor_resume::history::{
    add_history, record_history, clear_history, delete_history, history_entry, HistoryEntry, HISTORY_LIMIT,
};
use tailor_resume::profile::{
    default_compile_mode, default_extract_prompt_latex, default_extract_prompt_pdf,
    default_generate_prompt, default_model, Profile, Settings,
};
use tailor_resume::session::{
    choose_api_key, plan_generation, require_api_key, uses_online_compiler, GenerationPlan,
    NO_API_KEY, NO_IMPORTED_LATEX,
};
use tailor_resume::templates::{ats_classic, ats_modern, get_template_source, list_templates};

fn entry(id: &str) -> HistoryEntry {
    history_entry(id.to_string(), "t".to_string(), "jd", "tpl", "latex", None)
}

#[test]
fn new_entries_go_first() {
    let mut history = vec![entry("old")];
    let e = add_history(
        &mut history,
        "7f3c1e2a-0b4d-4c6e-8f90-123456789abc".to_string(),
        "2024-05-01T12:00:00+00:00".to_string(),
        "Rust developer",
        "ATS Classic",
        "\\doc",
        Some("/out/Resume.pdf"),
    );
    assert_eq!(history.len(), 2);
    assert_eq!(history[0].id, e.id);
    assert_eq!(history[1].id, "old");
    assert_eq!(e.id, "7f3c1e2a-0b4d-4c6e-8f90-123456789abc");
    assert_eq!(e.timestamp, "2024-05-01T12:00:00+00:00");
    assert_eq!(e.jd_snippet, "Rust developer");
    assert_eq!(e.template_name, "ATS Classic");
    assert_eq!(e.latex, "\\doc");
    assert_eq!(e.pdf_path.as_deref(), Some("/out/Resume.pdf"));
}

#[test]
fn history_keeps_fifty_newest() {
    let mut history: Vec<HistoryEntry> = (0..HISTORY_LIMIT).map(|i| entry(&i.to_string())).collect();
    let e = add_history(&mut history, "new".to_string(), "t".to_string(), "jd", "t", "l", None);
    assert_eq!(history.len(), 50);
    assert_eq!(history[0].id, "new");
    assert_eq!(e.id, "new");
    assert_eq!(history[1].id, "0");
    assert_eq!(history[49].id, "48");
}

#[test]
fn snippet_keeps_two_hundred_chars() {
    let jd = "é".repeat(250);
    let e = history_entry("i".to_string(), "t".to_string(), &jd, "x", "y", None);
    assert_eq!(e.jd_snippet.chars().count(), 200);
    assert_eq!(e.jd_snippet, "é".repeat(200));
}

#[test]
fn delete_removes_matching_ids_only() {
    let mut history = vec![entry("a"), entry("b"), entry("a"), entry("c")];
    delete_history(&mut history, "a");
    let ids: Vec<&str> = history.iter().map(|e| e.id.as_str()).collect();
    assert_eq!(ids, vec!["b", "c"]);
    delete_history(&mut history, "zzz");
    assert_eq!(history.len(), 2);
    clear_history(&mut history);
    assert!(history.is_empty());
}

#[test]
fn default_profile_is_empty() {
    let p = Profile::default();
    assert!(p.basics.name.is_empty() && p.basics.summary.is_empty());
    assert!(p.work.is_empty() && p.projects.is_empty() && p.custom.is_empty());
}

#[test]
fn default_settings() {
    let s = Settings::defaults("/docs/TailorResume".to_string());
    assert_eq!(s.output_folder, "/docs/TailorResume");
    assert_eq!(s.model, "gemini-2.5-flash");
    assert_eq!(s.compile_mode, "online");
    assert!(s.api_key.is_empty() && s.source_latex.is_empty() && s.considerations.is_empty());
    assert_eq!(s.extract_prompt_pdf, default_extract_prompt_pdf());
    assert!(s.extract_prompt_pdf.starts_with("Extract a structured resume from this PDF."));
    assert!(default_extract_prompt_latex().starts_with("Extract a structured resume from this LaTeX source."));
    assert!(default_generate_prompt().contains("{PROFILE}"));
    assert_eq!(default_model(), "gemini-2.5-flash");
    assert_eq!(default_compile_mode(), "online");
}

#[test]
fn reset_keeps_api_key() {
    let mut s = Settings::defaults("/a".to_string());
    s.api_key = "secret".to_string();
    s.model = "gemini-2.5-pro".to_string();
    s.considerations = vec!["x".to_string()];
    s.reset_keeping_api_key("/b".to_string());
    assert_eq!(s.api_key, "secret");
    assert_eq!(s.model, "gemini-2.5-flash");
    assert_eq!(s.output_folder, "/b");
    assert!(s.considerations.is_empty());
}

#[test]
fn import_sources() {
    let mut s = Settings::defaults("/a".to_string());
    s.use_latex_import("\\doc".to_string());
    assert_eq!(s.import_source, "latex");
    assert_eq!(s.source_latex, "\\doc");
    s.use_pdf_import();
    assert_eq!(s.import_source, "pdf");
    assert!(s.source_latex.is_empty());
    s.use_manual_import();
    assert_eq!(s.import_source, "manual");
}

#[test]
fn keychain_key_wins_when_set() {
    assert_eq!(choose_api_key(Ok("chain".to_string()), "settings"), "chain");
    assert_eq!(choose_api_key(Ok(String::new()), "settings"), "settings");
    assert_eq!(choose_api_key(Err("locked".to_string()), "settings"), "settings");
    assert_eq!(require_api_key(""), Err(NO_API_KEY.to_string()));
    assert_eq!(require_api_key("k"), Ok(()));
}

#[test]
fn generation_plans() {
    match plan_generation("k", "my-latex", "\\doc").unwrap() {
        GenerationPlan::RewriteImported { source_latex } => assert_eq!(source_latex, "\\doc"),
        _ => panic!("expected the imported source"),
    }
    match plan_generation("k", "ats-modern", "").unwrap() {
        GenerationPlan::FillTemplate { template_id } => assert_eq!(template_id, "ats-modern"),
        _ => panic!("expected a template"),
    }
    assert_eq!(plan_generation("k", "my-latex", "").err().unwrap(), NO_IMPORTED_LATEX);
    assert_eq!(plan_generation("", "my-latex", "\\doc").err().unwrap(), NO_API_KEY);
    assert!(uses_online_compiler("online"));
    assert!(!uses_online_compiler("offline"));
    assert!(!uses_online_compiler("Online"));
}

#[test]
fn templates_are_listed_and_found() {
    let t = list_templates();
    assert_eq!(t.len(), 2);
    assert_eq!(t[0].id, "ats-classic");
    assert_eq!(t[1].name, "ATS Modern");
    assert!(t.iter().all(|x| x.built_in));
    assert_eq!(get_template_source("ats-classic").unwrap(), ats_classic());
    assert_eq!(get_template_source("ats-modern").unwrap(), ats_modern());
    assert!(get_template_source("my-latex").is_none());
    assert!(ats_classic().starts_with("\\documentclass[11pt,letterpaper]{article}"));
    assert!(ats_modern().contains("\\newcommand{\\jobentry}[4]"));
}

#[test]
fn pdflatex_locations_from_command_output() {
    assert_eq!(which_output_path("/usr/bin/pdflatex\n"), "/usr/bin/pdflatex");
    assert_eq!(
        where_output_path("C:\\TeX\\pdflatex.exe\r\nC:\\Other\\pdflatex.exe\r\n"),
        Some("C:\\TeX\\pdflatex.exe".to_string())
    );
    assert_eq!(where_output_path(""), None);
    assert_eq!(where_output_path("\nx"), Some(String::new()));
    let pkgs = tinytex_packages();
    assert_eq!(pkgs.len(), 12);
    assert_eq!(pkgs[0], "xcolor");
    assert_eq!(pkgs[11], "collection-fontsrecommended");
}

#[test]
fn recording_puts_entry_first() {
    let mut history = vec![entry("a"), entry("b")];
    record_history(&mut history, entry("c"));
    let ids: Vec<&str> = history.iter().map(|e| e.id.as_str()).collect();
    assert_eq!(ids, vec!["c", "a", "b"]);
}

#[test]
fn builtin_templates_survive_stripping() {
    for t in list_templates() {
        assert_eq!(tailor_resume::latex::strip_unsupported_packages(&t.source), t.source);
        assert!(t.source.contains("\\documentclass"));
        assert!(t.source.contains("\\begin{document}"));
        assert!(t.source.contains("\\end{document}"));
    }
}

#[test]
fn latex_extract_prompt_names_its_subject() {
    let pdf = default_extract_prompt_pdf();
    assert!(pdf.starts_with("Extract a structured resume from this PDF."));
    assert_eq!(
        default_extract_prompt_latex(),
        pdf.replacen("this PDF", "this LaTeX source", 1)
    );
    assert!(pdf.contains("\"startDate\""));
}

#[test]
fn extract_prompt_embeds_profile_shaped_json() {
    let pdf = default_extract_prompt_pdf();
    let start = pdf.find('{').unwrap();
    let end = pdf.rfind('}').unwrap();
    let value: serde_json::Value = serde_json::from_str(&pdf[start..=end]).unwrap();
    let keys: Vec<&str> = value.as_object().unwrap().keys().map(|k| k.as_str()).collect();
    for k in ["basics", "work", "projects", "skills", "education", "certifications", "awards", "custom"] {
        assert!(keys.contains(&k));
    }
    assert_eq!(keys.len(), 8);
    assert!(value["work"][0].get("startDate").is_some());
}
