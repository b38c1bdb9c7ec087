use tailor_resume::latex::{
    clean_latex_response, finish_source_reply, finish_template_reply, remove_package_lines,
    remove_unicode_mapping, replace_icon_commands, strip_unsupported_packages,
    MISSING_BEGIN_DOCUMENT, MISSING_DOCUMENT_CLASS, MISSING_END_DOCUMENT,
};
use tailor_resume::pattern::erase_matches;
use tailor_resume::text::{replace_text, take_chars, text_contains, trim_text};

#[test]
fn trim_removes_unicode_white_space() {
    assert_eq!(trim_text("\u{a0}\t hello world \n\u{3000}"), "hello world");
    assert_eq!(trim_text("   "), "");
    assert_eq!(trim_text(""), "");
}

#[test]
fn replace_is_left_to_right_without_overlap() {
    assert_eq!(replace_text("aaaa", "aa", "b"), "bb");
    assert_eq!(replace_text("aaa", "aa", "b"), "ba");
    assert_eq!(replace_text("abc", "x", "y"), "abc");
    assert_eq!(replace_text("abc", "", "y"), "abc");
    assert_eq!(replace_text("a-b-c", "-", ", "), "a, b, c");
}

#[test]
fn contains_and_take() {
    assert!(text_contains("hello world", "o w"));
    assert!(!text_contains("hello", "hello!"));
    assert!(text_contains("x", ""));
    assert_eq!(take_chars("héllo", 2), "hé");
    assert_eq!(take_chars("hi", 5), "hi");
}

#[test]
fn clean_strips_fences_and_space() {
    assert_eq!(
        clean_latex_response("  ```latex\n\\documentclass{article}\n```  \n"),
        "\\documentclass{article}"
    );
    assert_eq!(clean_latex_response("```\nbody\n```"), "body");
    assert_eq!(clean_latex_response("\n plain text \n"), "plain text");
    assert_eq!(clean_latex_response("```latex ```latex X"), "latex X");
    assert_eq!(clean_latex_response("``````"), "");
}

#[test]
fn source_reply_needs_all_three_markers() {
    let doc = "```latex\n\\documentclass{article}\n\\begin{document}\nHi\n\\end{document}\n```";
    assert_eq!(
        finish_source_reply(doc),
        Ok("\\documentclass{article}\n\\begin{document}\nHi\n\\end{document}".to_string())
    );
    assert_eq!(
        finish_source_reply("\\begin{document}\\end{document}"),
        Err(MISSING_DOCUMENT_CLASS.to_string())
    );
    assert_eq!(
        finish_source_reply("\\documentclass{article}\\end{document}"),
        Err(MISSING_BEGIN_DOCUMENT.to_string())
    );
    assert_eq!(
        finish_source_reply("\\documentclass{article}\\begin{document}"),
        Err(MISSING_END_DOCUMENT.to_string())
    );
    assert_eq!(
        MISSING_BEGIN_DOCUMENT,
        "AI output invalid: missing \\begin{{document}}. Try again."
    );
}

#[test]
fn template_reply_does_not_need_begin() {
    assert_eq!(
        finish_template_reply("\\documentclass{article}\\end{document}"),
        Ok("\\documentclass{article}\\end{document}".to_string())
    );
    assert_eq!(
        finish_template_reply("\\documentclass{article}"),
        Err(MISSING_END_DOCUMENT.to_string())
    );
}

#[test]
fn package_lines_are_removed() {
    let src = "\\usepackage{fontawesome5}\n\\usepackage{geometry}\n\\usepackage{ctex}x\\usepackage[{}]{fontspec}\ny";
    assert_eq!(remove_package_lines(src), "\\usepackage{geometry}\nxy");
}

#[test]
fn package_lines_with_options_stay() {
    // The option pattern starts with `\u`, which the regex crate reads as
    // a malformed Unicode escape; the pattern is skipped.
    let src = "\\usepackage[scale=2]{fontawesome5}\nrest";
    assert_eq!(remove_package_lines(src), src);
}

#[test]
fn icon_commands_become_text_in_order() {
    assert_eq!(replace_icon_commands("\\faGithub{} and \\faJs"), "GitHub{} and JS");
    assert_eq!(replace_icon_commands("\\faLinkedinIn"), "LinkedInIn");
    assert_eq!(replace_icon_commands("\\faExternalLink*"), " [link]");
    assert_eq!(replace_icon_commands("\\aiOrcid"), "ORCID");
}

#[test]
fn unicode_mapping_lines_go() {
    assert_eq!(
        remove_unicode_mapping("a\\input{glyphtounicode}\nb\\pdfgentounicode=1c"),
        "abc"
    );
}

#[test]
fn unknown_icons_are_erased() {
    let src = "\\usepackage{fontawesome5}\n\\faRocket* Launch \\faGithub \\aiArxiv{}";
    assert_eq!(strip_unsupported_packages(src), " Launch GitHub {}");
}

#[test]
fn plain_source_is_unchanged() {
    let src = "\\documentclass{article}\n\\begin{document}\nHello\n\\end{document}\n";
    assert_eq!(strip_unsupported_packages(src), src);
}

#[test]
fn erase_with_valid_and_invalid_patterns() {
    assert_eq!(erase_matches("[0-9]+", "a1b22c".to_string()), "abc");
    assert_eq!(erase_matches("(", "a(b".to_string()), "a(b");
}
