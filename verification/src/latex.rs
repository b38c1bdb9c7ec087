//! LaTeX text rules: cleaning a model reply, checking that it is a whole
//! document, and removing packages and icon commands that pdfLaTeX on the
//! compile servers cannot handle.

use vstd::prelude::*;

use crate::pattern::{erase_if_compiles, erase_matches};
use crate::text::{
    all_white_space, is_white_space, lemma_trim_white, chars_of, has_infix, has_prefix, has_suffix, matches_at, occurs_at,
    replace_all, replace_text, string_from_range, trim, trim_bounds, text_contains,
};

verus! {

/// Opening fence of a fenced LaTeX block.
pub const FENCE_LATEX: &'static str = "```latex";

/// A bare code fence.
pub const FENCE: &'static str = "```";

/// Marker of a document class declaration.
pub const DOCUMENT_CLASS: &'static str = "\\documentclass";

/// Marker of the start of the document body.
pub const BEGIN_DOCUMENT: &'static str = "\\begin{document}";

/// Marker of the end of the document body.
pub const END_DOCUMENT: &'static str = "\\end{document}";

/// Error when the generated text has no document class.
pub const MISSING_DOCUMENT_CLASS: &'static str = "AI output invalid: missing \\documentclass. Try again.";

/// Error when the generated text has no `\begin{document}`.
pub const MISSING_BEGIN_DOCUMENT: &'static str =
    "AI output invalid: missing \\begin{{document}}. Try again.";

/// Error when the generated text has no `\end{document}`.
pub const MISSING_END_DOCUMENT: &'static str = "AI output invalid: missing \\end{{document}}. Try again.";

/// A model reply with surrounding white space and Markdown code fences
/// removed: trim; drop a leading fence with the `latex` tag, then a leading
/// bare fence, then a trailing fence, trimming after each removal.
pub open spec fn clean_latex(text: Seq<char>) -> Seq<char> {
    let r0 = trim(text);
    let r1 = if has_prefix(r0, FENCE_LATEX@) {
        trim(r0.skip(FENCE_LATEX@.len() as int))
    } else {
        r0
    };
    let r2 = if has_prefix(r1, FENCE@) {
        trim(r1.skip(FENCE@.len() as int))
    } else {
        r1
    };
    if has_suffix(r2, FENCE@) {
        trim(r2.take(r2.len() - FENCE@.len()))
    } else {
        r2
    }
}

proof fn lemma_prefix_of_range(c: Seq<char>, p: Seq<char>, i: int, j: int)
    requires
        0 <= i <= j <= c.len(),
    ensures
        has_prefix(c.subrange(i, j), p) == (i + p.len() <= j && occurs_at(c, p, i)),
{
    if i + p.len() <= j {
        assert(c.subrange(i, j).subrange(0, p.len() as int) =~= c.subrange(i, i + p.len()));
    }
}

proof fn lemma_suffix_of_range(c: Seq<char>, p: Seq<char>, i: int, j: int)
    requires
        0 <= i <= j <= c.len(),
    ensures
        has_suffix(c.subrange(i, j), p) == (i + p.len() <= j && occurs_at(c, p, j - p.len())),
{
    if i + p.len() <= j {
        assert(c.subrange(i, j).subrange(j - i - p.len(), j - i) =~= c.subrange(
            j - p.len(),
            j,
        ));
    }
}

/// Removes surrounding white space and Markdown code fences from a model
/// reply (see [`clean_latex`]).
pub fn clean_latex_response(text: &str) -> (r: String)
    ensures
        r@ == clean_latex(text@),
{
    let c = chars_of(text);
    let tagged = chars_of(FENCE_LATEX);
    let fence = chars_of(FENCE);
    let (i0, j0) = trim_bounds(&c, 0, c.len());
    assert(c@.subrange(0, c@.len() as int) == c@);
    let ghost r0 = c@.subrange(i0 as int, j0 as int);
    proof {
        lemma_prefix_of_range(c@, tagged@, i0 as int, j0 as int);
    }
    let (i1, j1) = if tagged.len() <= j0 - i0 && matches_at(&c, &tagged, i0) {
        let b = trim_bounds(&c, i0 + tagged.len(), j0);
        assert(r0.skip(tagged@.len() as int) =~= c@.subrange(i0 + tagged@.len(), j0 as int));
        b
    } else {
        (i0, j0)
    };
    let ghost r1 = c@.subrange(i1 as int, j1 as int);
    proof {
        lemma_prefix_of_range(c@, fence@, i1 as int, j1 as int);
    }
    let (i2, j2) = if fence.len() <= j1 - i1 && matches_at(&c, &fence, i1) {
        let b = trim_bounds(&c, i1 + fence.len(), j1);
        assert(r1.skip(fence@.len() as int) =~= c@.subrange(i1 + fence@.len(), j1 as int));
        b
    } else {
        (i1, j1)
    };
    let ghost r2 = c@.subrange(i2 as int, j2 as int);
    proof {
        lemma_suffix_of_range(c@, fence@, i2 as int, j2 as int);
    }
    let (i3, j3) = if fence.len() <= j2 - i2 && matches_at(&c, &fence, j2 - fence.len()) {
        let b = trim_bounds(&c, i2, j2 - fence.len());
        assert(r2.take(r2.len() - fence@.len()) =~= c@.subrange(
            i2 as int,
            j2 - fence@.len(),
        ));
        b
    } else {
        (i2, j2)
    };
    string_from_range(&c, i3, j3)
}

/// What becomes of a reply to a request that rewrites the imported LaTeX:
/// the cleaned text when it has a document class, a `\begin{document}` and
/// an `\end{document}`, otherwise the error for the first one missing.
pub open spec fn source_reply_outcome(reply: Seq<char>) -> Result<Seq<char>, Seq<char>> {
    let c = clean_latex(reply);
    if !has_infix(c, DOCUMENT_CLASS@) {
        Err(MISSING_DOCUMENT_CLASS@)
    } else if !has_infix(c, BEGIN_DOCUMENT@) {
        Err(MISSING_BEGIN_DOCUMENT@)
    } else if !has_infix(c, END_DOCUMENT@) {
        Err(MISSING_END_DOCUMENT@)
    } else {
        Ok(c)
    }
}

/// What becomes of a reply to a request that fills a template: the cleaned
/// text when it has a document class and an `\end{document}`, otherwise the
/// error for the first one missing.
pub open spec fn template_reply_outcome(reply: Seq<char>) -> Result<Seq<char>, Seq<char>> {
    let c = clean_latex(reply);
    if !has_infix(c, DOCUMENT_CLASS@) {
        Err(MISSING_DOCUMENT_CLASS@)
    } else if !has_infix(c, END_DOCUMENT@) {
        Err(MISSING_END_DOCUMENT@)
    } else {
        Ok(c)
    }
}

/// The view of a result of strings.
pub open spec fn result_view(r: Result<String, String>) -> Result<Seq<char>, Seq<char>> {
    match r {
        Ok(s) => Ok(s@),
        Err(e) => Err(e@),
    }
}

/// Cleans the reply to a rewrite of the imported LaTeX and checks that it
/// is a whole document (see [`source_reply_outcome`]).
pub fn finish_source_reply(reply: &str) -> (r: Result<String, String>)
    ensures
        result_view(r) == source_reply_outcome(reply@),
        r matches Ok(d) ==> d@ == clean_latex(reply@),
{
    let cleaned = clean_latex_response(reply);
    if !text_contains(cleaned.as_str(), DOCUMENT_CLASS) {
        return Err(MISSING_DOCUMENT_CLASS.to_string());
    }
    if !text_contains(cleaned.as_str(), BEGIN_DOCUMENT) {
        return Err(MISSING_BEGIN_DOCUMENT.to_string());
    }
    if !text_contains(cleaned.as_str(), END_DOCUMENT) {
        return Err(MISSING_END_DOCUMENT.to_string());
    }
    Ok(cleaned)
}

/// Cleans the reply to a template fill and checks that it is a whole
/// document (see [`template_reply_outcome`]).
pub fn finish_template_reply(reply: &str) -> (r: Result<String, String>)
    ensures
        result_view(r) == template_reply_outcome(reply@),
        r matches Ok(d) ==> d@ == clean_latex(reply@),
{
    let cleaned = clean_latex_response(reply);
    if !text_contains(cleaned.as_str(), DOCUMENT_CLASS) {
        return Err(MISSING_DOCUMENT_CLASS.to_string());
    }
    if !text_contains(cleaned.as_str(), END_DOCUMENT) {
        return Err(MISSING_END_DOCUMENT.to_string());
    }
    Ok(cleaned)
}

/// A cleaned reply has no white space at either end.
pub proof fn lemma_clean_latex_is_trimmed(reply: Seq<char>)
    ensures
        clean_latex(reply).len() > 0 ==> !crate::text::is_white_space(clean_latex(reply)[0])
            && !crate::text::is_white_space(clean_latex(reply).last()),
{
    let r0 = trim(reply);
    let r1 = if has_prefix(r0, FENCE_LATEX@) {
        trim(r0.skip(FENCE_LATEX@.len() as int))
    } else {
        r0
    };
    let r2 = if has_prefix(r1, FENCE@) {
        trim(r1.skip(FENCE@.len() as int))
    } else {
        r1
    };
    crate::text::lemma_trim_has_no_outer_space(reply);
    crate::text::lemma_trim_has_no_outer_space(r0.skip(FENCE_LATEX@.len() as int));
    crate::text::lemma_trim_has_no_outer_space(r1.skip(FENCE@.len() as int));
    if has_suffix(r2, FENCE@) {
        crate::text::lemma_trim_has_no_outer_space(r2.take(r2.len() - FENCE@.len()));
    }
}

/// A reply that passes the check contains all three document markers.
pub proof fn lemma_accepted_source_reply_is_document(reply: Seq<char>)
    ensures
        source_reply_outcome(reply) matches Ok(doc) ==> has_infix(doc, DOCUMENT_CLASS@)
            && has_infix(doc, BEGIN_DOCUMENT@) && has_infix(doc, END_DOCUMENT@),
{
}

/// Packages removed before compiling on a server without them.
pub open spec fn unsupported_packages() -> Seq<Seq<char>> {
    seq![
        "fontawesome5"@,
        "fontawesome"@,
        "academicons"@,
        "fontspec"@,
        "unicode-math"@,
        "ucharclasses"@,
        "polyglossia"@,
        "ctex"@,
    ]
}

/// The regex meant to remove a `\usepackage[options]{pkg}` line.
pub open spec fn package_option_pattern(pkg: Seq<char>) -> Seq<char> {
    "\\usepackage\\[[^\\]]*\\]{"@ + pkg + "}\n?"@
}

/// `s` without the usage lines of package `pkg`: the literal forms
/// `\usepackage{pkg}` (with and without the line break) and
/// `\usepackage[{}]{pkg}` with a line break, then the matches of
/// [`package_option_pattern`].
pub open spec fn strip_package(s: Seq<char>, pkg: Seq<char>) -> Seq<char> {
    let a = replace_all(s, "\\usepackage{"@ + pkg + "}\n"@, ""@);
    let b = replace_all(a, "\\usepackage{"@ + pkg + "}"@, ""@);
    let c = replace_all(b, "\\usepackage[{}]{"@ + pkg + "}\n"@, ""@);
    erase_if_compiles(package_option_pattern(pkg), c)
}

/// [`strip_package`] applied for each package of `pkgs` in turn.
pub open spec fn strip_packages(s: Seq<char>, pkgs: Seq<Seq<char>>) -> Seq<char>
    decreases pkgs.len(),
{
    if pkgs.len() == 0 {
        s
    } else {
        strip_packages(strip_package(s, pkgs[0]), pkgs.drop_first())
    }
}

/// Icon commands and the plain text that stands for each, in the order in
/// which they are replaced.
pub open spec fn icon_replacements() -> Seq<(Seq<char>, Seq<char>)> {
    seq![
        ("\\faExternalLink*"@, " [link]"@),
        ("\\faExternalLink"@, " [link]"@),
        ("\\faGithub"@, "GitHub"@),
        ("\\faLinkedin"@, "LinkedIn"@),
        ("\\faLinkedinIn"@, "LinkedIn"@),
        ("\\faEnvelope"@, "Email"@),
        ("\\faPhone"@, "Phone"@),
        ("\\faMapMarker*"@, ""@),
        ("\\faMapMarker"@, ""@),
        ("\\faGlobe"@, ""@),
        ("\\faHome"@, ""@),
        ("\\faBriefcase"@, ""@),
        ("\\faGraduationCap"@, ""@),
        ("\\faAward"@, ""@),
        ("\\faStar"@, ""@),
        ("\\faCode"@, ""@),
        ("\\faServer"@, ""@),
        ("\\faDatabase"@, ""@),
        ("\\faPython"@, "Python"@),
        ("\\faJs"@, "JS"@),
        ("\\faReact"@, "React"@),
        ("\\faNode"@, "Node"@),
        ("\\faDocker"@, "Docker"@),
        ("\\faAws"@, "AWS"@),
        ("\\faLinkedinSquare"@, "LinkedIn"@),
        ("\\faGithubSquare"@, "GitHub"@),
        ("\\faStackOverflow"@, "StackOverflow"@),
        ("\\faMedium"@, "Medium"@),
        ("\\faTwitter"@, "Twitter"@),
        ("\\faInstagram"@, "Instagram"@),
        ("\\faYoutube"@, "YouTube"@),
        ("\\aiOrcid"@, "ORCID"@),
        ("\\aiGoogleScholar"@, "Scholar"@),
        ("\\aiResearchGate"@, "ResearchGate"@),
    ]
}

/// Each `(command, text)` of `reps`, in order, replaced throughout `s`.
pub open spec fn replace_each(s: Seq<char>, reps: Seq<(Seq<char>, Seq<char>)>) -> Seq<char>
    decreases reps.len(),
{
    if reps.len() == 0 {
        s
    } else {
        replace_each(replace_all(s, reps[0].0, reps[0].1), reps.drop_first())
    }
}

/// Regex of the remaining Font Awesome commands.
pub const FA_COMMAND_PATTERN: &'static str = "\\\\fa[A-Z][a-zA-Z]*\\*?";

/// Regex of the remaining Academicons commands.
pub const AI_COMMAND_PATTERN: &'static str = "\\\\ai[A-Z][a-zA-Z]*";

/// `s` without the glyph-to-unicode mapping lines.
pub open spec fn strip_unicode_mapping(s: Seq<char>) -> Seq<char> {
    let a = replace_all(s, "\\input{glyphtounicode}\n"@, ""@);
    let b = replace_all(a, "\\input{glyphtounicode}"@, ""@);
    let c = replace_all(b, "\\pdfgentounicode=1\n"@, ""@);
    replace_all(c, "\\pdfgentounicode=1"@, ""@)
}

/// The LaTeX source made safe for a plain pdfLaTeX: package lines removed,
/// known icon commands replaced by text, other icon commands erased, and
/// the glyph mapping lines removed.
pub open spec fn strip_unsupported(latex: Seq<char>) -> Seq<char> {
    let a = strip_packages(latex, unsupported_packages());
    let b = replace_each(a, icon_replacements());
    let c = erase_if_compiles(FA_COMMAND_PATTERN@, b);
    let d = erase_if_compiles(AI_COMMAND_PATTERN@, c);
    strip_unicode_mapping(d)
}

fn concat_pkg(open: &str, pkg: &str, close: &str) -> (s: String)
    ensures
        s@ == open@ + pkg@ + close@,
{
    crate::text::concat3(open, pkg, close)
}

/// Removes the usage lines of every package of [`unsupported_packages`].
pub fn remove_package_lines(latex: &str) -> (r: String)
    ensures
        r@ == strip_packages(latex@, unsupported_packages()),
{
    let pkgs: Vec<&str> = vec![
        "fontawesome5",
        "fontawesome",
        "academicons",
        "fontspec",
        "unicode-math",
        "ucharclasses",
        "polyglossia",
        "ctex",
    ];
    let ghost all = unsupported_packages();
    assert(pkgs@.map_values(|p: &str| p@) =~= all);
    let mut cur = String::from_str(latex);
    assert(all.skip(0) == all);
    let mut k: usize = 0;
    while k < pkgs.len()
        invariant
            k <= pkgs@.len(),
            pkgs@.len() == all.len(),
            forall|j: int| 0 <= j < all.len() ==> #[trigger] pkgs@[j]@ == all[j],
            strip_packages(latex@, all) == strip_packages(cur@, all.skip(k as int)),
        decreases pkgs.len() - k,
    {
        let pkg = pkgs[k];
        assert(pkgs@.map_values(|p: &str| p@)[k as int] == all[k as int]);
        let p1 = concat_pkg("\\usepackage{", pkg, "}\n");
        let p2 = concat_pkg("\\usepackage{", pkg, "}");
        let p3 = concat_pkg("\\usepackage[{}]{", pkg, "}\n");
        let re = concat_pkg("\\usepackage\\[[^\\]]*\\]{", pkg, "}\n?");
        let a = replace_text(cur.as_str(), p1.as_str(), "");
        let b = replace_text(a.as_str(), p2.as_str(), "");
        let c = replace_text(b.as_str(), p3.as_str(), "");
        let next = erase_matches(re.as_str(), c);
        assert(all.skip(k as int).drop_first() =~= all.skip(k + 1));
        cur = next;
        k = k + 1;
    }
    cur
}

/// Replaces the known icon commands by text, in the order of
/// [`icon_replacements`].
pub fn replace_icon_commands(latex: &str) -> (r: String)
    ensures
        r@ == replace_each(latex@, icon_replacements()),
{
    let reps: Vec<(&str, &str)> = vec![
        ("\\faExternalLink*", " [link]"),
        ("\\faExternalLink", " [link]"),
        ("\\faGithub", "GitHub"),
        ("\\faLinkedin", "LinkedIn"),
        ("\\faLinkedinIn", "LinkedIn"),
        ("\\faEnvelope", "Email"),
        ("\\faPhone", "Phone"),
        ("\\faMapMarker*", ""),
        ("\\faMapMarker", ""),
        ("\\faGlobe", ""),
        ("\\faHome", ""),
        ("\\faBriefcase", ""),
        ("\\faGraduationCap", ""),
        ("\\faAward", ""),
        ("\\faStar", ""),
        ("\\faCode", ""),
        ("\\faServer", ""),
        ("\\faDatabase", ""),
        ("\\faPython", "Python"),
        ("\\faJs", "JS"),
        ("\\faReact", "React"),
        ("\\faNode", "Node"),
        ("\\faDocker", "Docker"),
        ("\\faAws", "AWS"),
        ("\\faLinkedinSquare", "LinkedIn"),
        ("\\faGithubSquare", "GitHub"),
        ("\\faStackOverflow", "StackOverflow"),
        ("\\faMedium", "Medium"),
        ("\\faTwitter", "Twitter"),
        ("\\faInstagram", "Instagram"),
        ("\\faYoutube", "YouTube"),
        ("\\aiOrcid", "ORCID"),
        ("\\aiGoogleScholar", "Scholar"),
        ("\\aiResearchGate", "ResearchGate"),
    ];
    let ghost all = icon_replacements();
    assert(reps@.map_values(|p: (&str, &str)| (p.0@, p.1@)) =~= all);
    let mut cur = String::from_str(latex);
    assert(all.skip(0) == all);
    let mut k: usize = 0;
    while k < reps.len()
        invariant
            k <= reps@.len(),
            reps@.len() == all.len(),
            reps@.map_values(|p: (&str, &str)| (p.0@, p.1@)) == all,
            replace_each(latex@, all) == replace_each(cur@, all.skip(k as int)),
        decreases reps.len() - k,
    {
        let (cmd, text) = reps[k];
        assert(reps@.map_values(|p: (&str, &str)| (p.0@, p.1@))[k as int] == all[k as int]);
        let next = replace_text(cur.as_str(), cmd, text);
        assert(all.skip(k as int).drop_first() =~= all.skip(k + 1));
        cur = next;
        k = k + 1;
    }
    cur
}

/// Removes the glyph-to-unicode mapping lines (see [`strip_unicode_mapping`]).
pub fn remove_unicode_mapping(latex: &str) -> (r: String)
    ensures
        r@ == strip_unicode_mapping(latex@),
{
    let a = replace_text(latex, "\\input{glyphtounicode}\n", "");
    let b = replace_text(a.as_str(), "\\input{glyphtounicode}", "");
    let c = replace_text(b.as_str(), "\\pdfgentounicode=1\n", "");
    replace_text(c.as_str(), "\\pdfgentounicode=1", "")
}

/// Makes a LaTeX source compile on a plain pdfLaTeX (see
/// [`strip_unsupported`]).
pub fn strip_unsupported_packages(latex: &str) -> (r: String)
    ensures
        r@ == strip_unsupported(latex@),
{
    let a = remove_package_lines(latex);
    let b = replace_icon_commands(a.as_str());
    let c = erase_matches(FA_COMMAND_PATTERN, b);
    let d = erase_matches(AI_COMMAND_PATTERN, c);
    remove_unicode_mapping(d.as_str())
}

proof fn lemma_absent_via_prefix(s: Seq<char>, big: Seq<char>, small: Seq<char>)
    requires
        has_prefix(big, small),
        !has_infix(s, small),
    ensures
        !has_infix(s, big),
{
    assert forall|i: int| !occurs_at(s, big, i) by {
        if occurs_at(s, big, i) {
            assert(s.subrange(i, i + small.len()) =~= big.subrange(0, small.len() as int));
            assert(occurs_at(s, small, i));
        }
    }
}

proof fn lemma_prefix_of_concat(a: Seq<char>, b: Seq<char>, p: Seq<char>)
    requires
        has_prefix(a, p),
    ensures
        has_prefix(a + b, p),
{
    assert((a + b).subrange(0, p.len() as int) =~= a.subrange(0, p.len() as int));
}

proof fn lemma_strip_packages_unchanged(s: Seq<char>, pkgs: Seq<Seq<char>>)
    requires
        !has_infix(s, "\\usepackage"@),
        forall|k: int|
            0 <= k < pkgs.len() ==> erase_if_compiles(package_option_pattern(#[trigger] pkgs[k]), s)
                == s,
    ensures
        strip_packages(s, pkgs) == s,
    decreases pkgs.len(),
{
    if pkgs.len() > 0 {
        let pkg = pkgs[0];
        reveal_strlit("\\usepackage");
        reveal_strlit("\\usepackage{");
        reveal_strlit("\\usepackage[{}]{");
        assert("\\usepackage{"@.subrange(0, 11) =~= "\\usepackage"@);
        assert("\\usepackage[{}]{"@.subrange(0, 11) =~= "\\usepackage"@);
        lemma_prefix_of_concat("\\usepackage{"@, pkg, "\\usepackage"@);
        lemma_prefix_of_concat("\\usepackage{"@ + pkg, "}\n"@, "\\usepackage"@);
        lemma_prefix_of_concat("\\usepackage{"@ + pkg, "}"@, "\\usepackage"@);
        lemma_prefix_of_concat("\\usepackage[{}]{"@, pkg, "\\usepackage"@);
        lemma_prefix_of_concat("\\usepackage[{}]{"@ + pkg, "}\n"@, "\\usepackage"@);
        lemma_absent_via_prefix(s, "\\usepackage{"@ + pkg + "}\n"@, "\\usepackage"@);
        lemma_absent_via_prefix(s, "\\usepackage{"@ + pkg + "}"@, "\\usepackage"@);
        lemma_absent_via_prefix(s, "\\usepackage[{}]{"@ + pkg + "}\n"@, "\\usepackage"@);
        crate::text::lemma_replace_absent(s, "\\usepackage{"@ + pkg + "}\n"@, ""@);
        crate::text::lemma_replace_absent(s, "\\usepackage{"@ + pkg + "}"@, ""@);
        crate::text::lemma_replace_absent(s, "\\usepackage[{}]{"@ + pkg + "}\n"@, ""@);
        assert(strip_package(s, pkg) == s);
        let rest = pkgs.drop_first();
        assert forall|k: int| 0 <= k < rest.len() implies erase_if_compiles(
            package_option_pattern(#[trigger] rest[k]),
            s,
        ) == s by {
            assert(rest[k] == pkgs[k + 1]);
        }
        lemma_strip_packages_unchanged(s, rest);
    }
}

proof fn lemma_replace_each_unchanged(s: Seq<char>, reps: Seq<(Seq<char>, Seq<char>)>)
    requires
        forall|k: int| 0 <= k < reps.len() ==> !has_infix(s, (#[trigger] reps[k]).0),
    ensures
        replace_each(s, reps) == s,
    decreases reps.len(),
{
    if reps.len() > 0 {
        crate::text::lemma_replace_absent(s, reps[0].0, reps[0].1);
        let rest = reps.drop_first();
        assert forall|k: int| 0 <= k < rest.len() implies !has_infix(s, (#[trigger] rest[k]).0) by {
            assert(rest[k] == reps[k + 1]);
        }
        lemma_replace_each_unchanged(s, rest);
    }
}

/// Every replaced icon command starts with `\fa` or `\ai`.
pub proof fn lemma_icon_commands_prefixed()
    ensures
        forall|k: int|
            0 <= k < icon_replacements().len() ==> has_prefix((#[trigger] icon_replacements()[k]).0, "\\fa"@)
                || has_prefix(icon_replacements()[k].0, "\\ai"@),
{
    let reps = icon_replacements();
    reveal_strlit("\\fa");
    reveal_strlit("\\ai");
    assert forall|k: int| 0 <= k < reps.len() implies has_prefix((#[trigger] reps[k]).0, "\\fa"@)
        || has_prefix(reps[k].0, "\\ai"@) by {
        if k == 0 {
            reveal_strlit("\\faExternalLink*");
            assert(reps[k].0.subrange(0, 3) =~= "\\fa"@);
        }
        else if k == 1 {
            reveal_strlit("\\faExternalLink");
            assert(reps[k].0.subrange(0, 3) =~= "\\fa"@);
        }
        else if k == 2 {
            reveal_strlit("\\faGithub");
            assert(reps[k].0.subrange(0, 3) =~= "\\fa"@);
        }
        else if k == 3 {
            reveal_strlit("\\faLinkedin");
            assert(reps[k].0.subrange(0, 3) =~= "\\fa"@);
        }
        else if k == 4 {
            reveal_strlit("\\faLinkedinIn");
            assert(reps[k].0.subrange(0, 3) =~= "\\fa"@);
        }
        else if k == 5 {
            reveal_strlit("\\faEnvelope");
            assert(reps[k].0.subrange(0, 3) =~= "\\fa"@);
        }
        else if k == 6 {
            reveal_strlit("\\faPhone");
            assert(reps[k].0.subrange(0, 3) =~= "\\fa"@);
        }
        else if k == 7 {
            reveal_strlit("\\faMapMarker*");
            assert(reps[k].0.subrange(0, 3) =~= "\\fa"@);
        }
        else if k == 8 {
            reveal_strlit("\\faMapMarker");
            assert(reps[k].0.subrange(0, 3) =~= "\\fa"@);
        }
        else if k == 9 {
            reveal_strlit("\\faGlobe");
            assert(reps[k].0.subrange(0, 3) =~= "\\fa"@);
        }
        else if k == 10 {
            reveal_strlit("\\faHome");
            assert(reps[k].0.subrange(0, 3) =~= "\\fa"@);
        }
        else if k == 11 {
            reveal_strlit("\\faBriefcase");
            assert(reps[k].0.subrange(0, 3) =~= "\\fa"@);
        }
        else if k == 12 {
            reveal_strlit("\\faGraduationCap");
            assert(reps[k].0.subrange(0, 3) =~= "\\fa"@);
        }
        else if k == 13 {
            reveal_strlit("\\faAward");
            assert(reps[k].0.subrange(0, 3) =~= "\\fa"@);
        }
        else if k == 14 {
            reveal_strlit("\\faStar");
            assert(reps[k].0.subrange(0, 3) =~= "\\fa"@);
        }
        else if k == 15 {
            reveal_strlit("\\faCode");
            assert(reps[k].0.subrange(0, 3) =~= "\\fa"@);
        }
        else if k == 16 {
            reveal_strlit("\\faServer");
            assert(reps[k].0.subrange(0, 3) =~= "\\fa"@);
        }
        else if k == 17 {
            reveal_strlit("\\faDatabase");
            assert(reps[k].0.subrange(0, 3) =~= "\\fa"@);
        }
        else if k == 18 {
            reveal_strlit("\\faPython");
            assert(reps[k].0.subrange(0, 3) =~= "\\fa"@);
        }
        else if k == 19 {
            reveal_strlit("\\faJs");
            assert(reps[k].0.subrange(0, 3) =~= "\\fa"@);
        }
        else if k == 20 {
            reveal_strlit("\\faReact");
            assert(reps[k].0.subrange(0, 3) =~= "\\fa"@);
        }
        else if k == 21 {
            reveal_strlit("\\faNode");
            assert(reps[k].0.subrange(0, 3) =~= "\\fa"@);
        }
        else if k == 22 {
            reveal_strlit("\\faDocker");
            assert(reps[k].0.subrange(0, 3) =~= "\\fa"@);
        }
        else if k == 23 {
            reveal_strlit("\\faAws");
            assert(reps[k].0.subrange(0, 3) =~= "\\fa"@);
        }
        else if k == 24 {
            reveal_strlit("\\faLinkedinSquare");
            assert(reps[k].0.subrange(0, 3) =~= "\\fa"@);
        }
        else if k == 25 {
            reveal_strlit("\\faGithubSquare");
            assert(reps[k].0.subrange(0, 3) =~= "\\fa"@);
        }
        else if k == 26 {
            reveal_strlit("\\faStackOverflow");
            assert(reps[k].0.subrange(0, 3) =~= "\\fa"@);
        }
        else if k == 27 {
            reveal_strlit("\\faMedium");
            assert(reps[k].0.subrange(0, 3) =~= "\\fa"@);
        }
        else if k == 28 {
            reveal_strlit("\\faTwitter");
            assert(reps[k].0.subrange(0, 3) =~= "\\fa"@);
        }
        else if k == 29 {
            reveal_strlit("\\faInstagram");
            assert(reps[k].0.subrange(0, 3) =~= "\\fa"@);
        }
        else if k == 30 {
            reveal_strlit("\\faYoutube");
            assert(reps[k].0.subrange(0, 3) =~= "\\fa"@);
        }
        else if k == 31 {
            reveal_strlit("\\aiOrcid");
            assert(reps[k].0.subrange(0, 3) =~= "\\ai"@);
        }
        else if k == 32 {
            reveal_strlit("\\aiGoogleScholar");
            assert(reps[k].0.subrange(0, 3) =~= "\\ai"@);
        }
        else if k == 33 {
            reveal_strlit("\\aiResearchGate");
            assert(reps[k].0.subrange(0, 3) =~= "\\ai"@);
        } else {
        }
    }
}

/// A source with nothing to strip comes back unchanged: no package line,
/// no `\fa`/`\ai` command and no glyph-mapping line, provided the regex
/// erasures find nothing in it either.
pub proof fn lemma_nothing_to_strip(latex: Seq<char>)
    requires
        !has_infix(latex, "\\usepackage"@),
        !has_infix(latex, "\\fa"@),
        !has_infix(latex, "\\ai"@),
        !has_infix(latex, "\\input{glyphtounicode}"@),
        !has_infix(latex, "\\pdfgentounicode=1"@),
        forall|k: int|
            0 <= k < unsupported_packages().len() ==> erase_if_compiles(
                package_option_pattern(#[trigger] unsupported_packages()[k]),
                latex,
            ) == latex,
        erase_if_compiles(FA_COMMAND_PATTERN@, latex) == latex,
        erase_if_compiles(AI_COMMAND_PATTERN@, latex) == latex,
    ensures
        strip_unsupported(latex) == latex,
{
    lemma_strip_packages_unchanged(latex, unsupported_packages());
    let reps = icon_replacements();
    lemma_icon_commands_prefixed();
    assert forall|k: int| 0 <= k < reps.len() implies !has_infix(latex, (#[trigger] reps[k]).0) by {
        if has_prefix(reps[k].0, "\\fa"@) {
            lemma_absent_via_prefix(latex, reps[k].0, "\\fa"@);
        } else {
            lemma_absent_via_prefix(latex, reps[k].0, "\\ai"@);
        }
    }
    lemma_replace_each_unchanged(latex, reps);
    reveal_strlit("\\input{glyphtounicode}\n");
    reveal_strlit("\\input{glyphtounicode}");
    reveal_strlit("\\pdfgentounicode=1\n");
    reveal_strlit("\\pdfgentounicode=1");
    assert("\\input{glyphtounicode}\n"@.subrange(0, 22) =~= "\\input{glyphtounicode}"@);
    assert("\\pdfgentounicode=1\n"@.subrange(0, 18) =~= "\\pdfgentounicode=1"@);
    lemma_absent_via_prefix(latex, "\\input{glyphtounicode}\n"@, "\\input{glyphtounicode}"@);
    lemma_absent_via_prefix(latex, "\\pdfgentounicode=1\n"@, "\\pdfgentounicode=1"@);
    crate::text::lemma_replace_absent(latex, "\\input{glyphtounicode}\n"@, ""@);
    crate::text::lemma_replace_absent(latex, "\\input{glyphtounicode}"@, ""@);
    crate::text::lemma_replace_absent(latex, "\\pdfgentounicode=1\n"@, ""@);
    crate::text::lemma_replace_absent(latex, "\\pdfgentounicode=1"@, ""@);
}


/// `s` is at least two characters long and has a backslash at its start and
/// nowhere else: a single LaTeX control word with what follows it.
pub open spec fn one_backslash(s: Seq<char>) -> bool {
    &&& s.len() >= 2
    &&& s[0] == '\\'
    &&& forall|k: int| 1 <= k < s.len() ==> s[k] != '\\'
}

/// An occurrence of `q` in `a + m + b` that does not start where `m`
/// starts lies wholly in `a` or wholly in `b`.
proof fn lemma_occurrence_in_parts(a: Seq<char>, m: Seq<char>, b: Seq<char>, q: Seq<char>, i: int)
    requires
        one_backslash(m),
        one_backslash(q),
        occurs_at(a + m + b, q, i),
        i != a.len(),
    ensures
        occurs_at(a + b, q, if i < a.len() { i } else { i - m.len() }),
{
    let s = a + m + b;
    let w = s.subrange(i, i + q.len());
    if i < a.len() {
        if i + q.len() > a.len() {
            assert(w[a.len() - i] == s[a.len() as int]);
            assert(s[a.len() as int] == m[0]);
            assert(false);
        }
        assert((a + b).subrange(i, i + q.len()) =~= w);
    } else if i < a.len() + m.len() {
        assert(w[0] == s[i]);
        assert(s[i] == m[i - a.len()]);
        assert(false);
    } else {
        assert((a + b).subrange(i - m.len(), i - m.len() + q.len()) =~= w);
    }
}

/// Putting `m` between `a` and `b` creates no occurrence of `q` when the
/// two differ in their second character.
proof fn lemma_absent_around(a: Seq<char>, m: Seq<char>, b: Seq<char>, q: Seq<char>)
    requires
        one_backslash(m),
        one_backslash(q),
        q[1] != m[1],
        !has_infix(a + b, q),
    ensures
        !has_infix(a + m + b, q),
{
    let s = a + m + b;
    assert forall|i: int| !occurs_at(s, q, i) by {
        if occurs_at(s, q, i) {
            if i == a.len() {
                assert(s.subrange(i, i + q.len())[1] == s[i + 1]);
                assert(s[i + 1] == m[1]);
            } else {
                lemma_occurrence_in_parts(a, m, b, q, i);
            }
        }
    }
}

/// Removing every occurrence of `m` from `a + m + b` leaves `a + b` when
/// `m` occurs in neither.
proof fn lemma_remove_line(a: Seq<char>, m: Seq<char>, b: Seq<char>)
    requires
        one_backslash(m),
        !has_infix(a + b, m),
    ensures
        replace_all(a + m + b, m, ""@) == a + b,
    decreases a.len(),
{
    reveal_strlit("");
    let s = a + m + b;
    if a.len() == 0 {
        assert(s =~= m + b);
        assert(s.subrange(0, m.len() as int) =~= m);
        assert(s.skip(m.len() as int) =~= b);
        assert(b =~= a + b);
        crate::text::lemma_replace_absent(b, m, ""@);
        assert(""@ + b =~= b);
    } else {
        if s.subrange(0, m.len() as int) == m {
            assert(occurs_at(s, m, 0));
            lemma_occurrence_in_parts(a, m, b, m, 0);
            assert(occurs_at(a + b, m, 0));
        }
        let a1 = a.skip(1);
        assert forall|i: int| !occurs_at(a1 + b, m, i) by {
            if occurs_at(a1 + b, m, i) {
                assert((a + b).subrange(i + 1, i + 1 + m.len()) =~= (a1 + b).subrange(
                    i,
                    i + m.len(),
                ));
                assert(occurs_at(a + b, m, i + 1));
            }
        }
        lemma_remove_line(a1, m, b);
        assert(s.skip(1) =~= a1 + m + b);
        assert(seq![a[0]] + (a1 + b) =~= a + b);
    }
}

/// With no package line and no icon command to handle, stripping only
/// removes the glyph-mapping lines.
proof fn lemma_only_mapping_left(latex: Seq<char>)
    requires
        !has_infix(latex, "\\usepackage"@),
        !has_infix(latex, "\\fa"@),
        !has_infix(latex, "\\ai"@),
        forall|k: int|
            0 <= k < unsupported_packages().len() ==> erase_if_compiles(
                package_option_pattern(#[trigger] unsupported_packages()[k]),
                latex,
            ) == latex,
        erase_if_compiles(FA_COMMAND_PATTERN@, latex) == latex,
        erase_if_compiles(AI_COMMAND_PATTERN@, latex) == latex,
    ensures
        strip_unsupported(latex) == strip_unicode_mapping(latex),
{
    lemma_strip_packages_unchanged(latex, unsupported_packages());
    let reps = icon_replacements();
    lemma_icon_commands_prefixed();
    assert forall|k: int| 0 <= k < reps.len() implies !has_infix(latex, (#[trigger] reps[k]).0) by {
        if has_prefix(reps[k].0, "\\fa"@) {
            lemma_absent_via_prefix(latex, reps[k].0, "\\fa"@);
        } else {
            lemma_absent_via_prefix(latex, reps[k].0, "\\ai"@);
        }
    }
    lemma_replace_each_unchanged(latex, reps);
}

/// The control words that the stripping looks for each have one backslash,
/// at their start.
proof fn lemma_control_words()
    ensures
        one_backslash("\\usepackage"@),
        one_backslash("\\fa"@),
        one_backslash("\\ai"@),
        one_backslash("\\input{glyphtounicode}"@),
        one_backslash("\\input{glyphtounicode}\n"@),
        one_backslash("\\pdfgentounicode=1"@),
        one_backslash("\\pdfgentounicode=1\n"@),
        "\\usepackage"@[1] == 'u',
        "\\fa"@[1] == 'f',
        "\\ai"@[1] == 'a',
        "\\input{glyphtounicode}"@[1] == 'i',
        "\\input{glyphtounicode}\n"@[1] == 'i',
        "\\pdfgentounicode=1"@[1] == 'p',
        "\\pdfgentounicode=1\n"@[1] == 'p',
        has_prefix("\\input{glyphtounicode}\n"@, "\\input{glyphtounicode}"@),
        has_prefix("\\pdfgentounicode=1\n"@, "\\pdfgentounicode=1"@),
{
    reveal_strlit("\\usepackage");
    reveal_strlit("\\fa");
    reveal_strlit("\\ai");
    reveal_strlit("\\input{glyphtounicode}");
    reveal_strlit("\\input{glyphtounicode}\n");
    reveal_strlit("\\pdfgentounicode=1");
    reveal_strlit("\\pdfgentounicode=1\n");
    assert("\\input{glyphtounicode}\n"@.subrange(0, 22) =~= "\\input{glyphtounicode}"@);
    assert("\\pdfgentounicode=1\n"@.subrange(0, 18) =~= "\\pdfgentounicode=1"@);
}

/// The glyph-mapping lines `\input{glyphtounicode}` and
/// `\pdfgentounicode=1`, each on a line of its own between `before` and
/// `after`, are removed and nothing else changes, when the rest has no
/// package line, icon command or other mapping text and the regex
/// erasures find nothing.
pub proof fn lemma_mapping_lines_removed(before: Seq<char>, after: Seq<char>)
    requires
        !has_infix(before + after, "\\usepackage"@),
        !has_infix(before + after, "\\fa"@),
        !has_infix(before + after, "\\ai"@),
        !has_infix(before + after, "\\input{glyphtounicode}"@),
        !has_infix(before + after, "\\pdfgentounicode=1"@),
        ({
            let latex = before + "\\input{glyphtounicode}\n"@ + "\\pdfgentounicode=1\n"@ + after;
            &&& forall|k: int|
                0 <= k < unsupported_packages().len() ==> erase_if_compiles(
                    package_option_pattern(#[trigger] unsupported_packages()[k]),
                    latex,
                ) == latex
            &&& erase_if_compiles(FA_COMMAND_PATTERN@, latex) == latex
            &&& erase_if_compiles(AI_COMMAND_PATTERN@, latex) == latex
        }),
    ensures
        strip_unsupported(
            before + "\\input{glyphtounicode}\n"@ + "\\pdfgentounicode=1\n"@ + after,
        ) == before + after,
{
    let a = before;
    let b = after;
    let m = "\\input{glyphtounicode}\n"@;
    let n = "\\pdfgentounicode=1\n"@;
    let i = "\\input{glyphtounicode}"@;
    let p = "\\pdfgentounicode=1"@;
    let latex = a + m + n + b;
    lemma_control_words();
    assert(a + n + b =~= a + (n + b));
    assert(latex =~= a + m + (n + b));
    lemma_absent_around(a, n, b, "\\usepackage"@);
    lemma_absent_around(a, m, n + b, "\\usepackage"@);
    lemma_absent_around(a, n, b, "\\fa"@);
    lemma_absent_around(a, m, n + b, "\\fa"@);
    lemma_absent_around(a, n, b, "\\ai"@);
    lemma_absent_around(a, m, n + b, "\\ai"@);
    lemma_only_mapping_left(latex);
    lemma_absent_via_prefix(a + b, m, i);
    lemma_absent_around(a, n, b, m);
    lemma_remove_line(a, m, n + b);
    let s1 = replace_all(latex, m, ""@);
    assert(s1 == a + n + b);
    lemma_absent_around(a, n, b, i);
    crate::text::lemma_replace_absent(a + n + b, i, ""@);
    lemma_absent_via_prefix(a + b, n, p);
    lemma_remove_line(a, n, b);
    crate::text::lemma_replace_absent(a + b, p, ""@);
}

/// A LaTeX text that a model might send back: not empty, no white space at
/// either end, and not starting with a backtick.
pub open spec fn plain_document_text(body: Seq<char>) -> bool {
    &&& body.len() > 0
    &&& !is_white_space(body[0])
    &&& !is_white_space(body.last())
    &&& body[0] != '`'
}

/// A reply that wraps `body` in a ```` ```latex ```` fence, with any white
/// space around the fences, is cleaned to exactly `body`.
pub proof fn lemma_fenced_reply_cleaned(
    w1: Seq<char>,
    w2: Seq<char>,
    body: Seq<char>,
    w3: Seq<char>,
    w4: Seq<char>,
)
    requires
        all_white_space(w1),
        all_white_space(w2),
        all_white_space(w3),
        all_white_space(w4),
        plain_document_text(body),
    ensures
        clean_latex(w1 + "```latex"@ + w2 + body + w3 + "```"@ + w4) == body,
{
    reveal_strlit("```latex");
    reveal_strlit("```");
    let f = "```latex"@;
    let g = "```"@;
    let e = Seq::<char>::empty();
    assert(all_white_space(e));
    let x = f + w2 + body + w3 + g;
    assert(w1 + f + w2 + body + w3 + g + w4 =~= w1 + x + w4);
    assert(x[0] == '`');
    assert(x.last() == '`');
    lemma_trim_white(w1, x, w4);
    assert(x.subrange(0, 8) =~= f);
    assert(has_prefix(x, FENCE_LATEX@));
    let y = body + w3 + g;
    assert(x.skip(8) =~= w2 + y + e);
    assert(y[0] == body[0]);
    assert(y.last() == '`');
    lemma_trim_white(w2, y, e);
    assert(!has_prefix(y, FENCE@)) by {
        if has_prefix(y, FENCE@) {
            assert(y.subrange(0, 3)[0] == y[0]);
        }
    }
    assert(y.subrange(y.len() - 3, y.len() as int) =~= g);
    assert(has_suffix(y, FENCE@));
    assert(y.take(y.len() - 3) =~= e + body + w3);
    lemma_trim_white(e, body, w3);
}

/// A reply without fences is cleaned to itself without the white space
/// around it.
pub proof fn lemma_unfenced_reply_cleaned(w1: Seq<char>, body: Seq<char>, w2: Seq<char>)
    requires
        all_white_space(w1),
        all_white_space(w2),
        plain_document_text(body),
        !has_suffix(body, "```"@),
    ensures
        clean_latex(w1 + body + w2) == body,
{
    reveal_strlit("```latex");
    reveal_strlit("```");
    lemma_trim_white(w1, body, w2);
    assert(!has_prefix(body, FENCE_LATEX@)) by {
        if has_prefix(body, FENCE_LATEX@) {
            assert(body.subrange(0, 8)[0] == body[0]);
        }
    }
    assert(!has_prefix(body, FENCE@)) by {
        if has_prefix(body, FENCE@) {
            assert(body.subrange(0, 3)[0] == body[0]);
        }
    }
}

/// An accepted reply is exactly the cleaned reply: trimmed, with the
/// fences taken off; an accepted template reply has a document class and
/// an `\end{document}`, an accepted rewrite also a `\begin{document}`.
pub proof fn lemma_accepted_reply_is_cleaned(reply: Seq<char>)
    ensures
        template_reply_outcome(reply) matches Ok(d) ==> {
            &&& d == clean_latex(reply)
            &&& d.len() > 0 && !is_white_space(d[0]) && !is_white_space(d.last())
            &&& has_infix(d, "\\documentclass"@)
            &&& has_infix(d, "\\end{document}"@)
        },
        source_reply_outcome(reply) matches Ok(d) ==> {
            &&& d == clean_latex(reply)
            &&& d.len() > 0 && !is_white_space(d[0]) && !is_white_space(d.last())
            &&& has_infix(d, "\\documentclass"@)
            &&& has_infix(d, "\\begin{document}"@)
            &&& has_infix(d, "\\end{document}"@)
        },
{
    reveal_strlit("\\documentclass");
    let c = clean_latex(reply);
    lemma_clean_latex_is_trimmed(reply);
    if has_infix(c, DOCUMENT_CLASS@) {
        let i = choose|i: int| occurs_at(c, DOCUMENT_CLASS@, i);
        assert(c.subrange(i, i + 14).len() == 14);
    }
}

/// A fenced template reply whose body has a document class and an
/// `\end{document}` is accepted as exactly that body.
pub proof fn lemma_fenced_template_reply_accepted(
    w1: Seq<char>,
    w2: Seq<char>,
    body: Seq<char>,
    w3: Seq<char>,
    w4: Seq<char>,
)
    requires
        all_white_space(w1),
        all_white_space(w2),
        all_white_space(w3),
        all_white_space(w4),
        plain_document_text(body),
        has_infix(body, "\\documentclass"@),
        has_infix(body, "\\end{document}"@),
    ensures
        template_reply_outcome(w1 + "```latex"@ + w2 + body + w3 + "```"@ + w4) == Ok::<
            Seq<char>,
            Seq<char>,
        >(body),
{
    lemma_fenced_reply_cleaned(w1, w2, body, w3, w4);
}

/// A fenced rewrite reply whose body has all three document markers is
/// accepted as exactly that body.
pub proof fn lemma_fenced_source_reply_accepted(
    w1: Seq<char>,
    w2: Seq<char>,
    body: Seq<char>,
    w3: Seq<char>,
    w4: Seq<char>,
)
    requires
        all_white_space(w1),
        all_white_space(w2),
        all_white_space(w3),
        all_white_space(w4),
        plain_document_text(body),
        has_infix(body, "\\documentclass"@),
        has_infix(body, "\\begin{document}"@),
        has_infix(body, "\\end{document}"@),
    ensures
        source_reply_outcome(w1 + "```latex"@ + w2 + body + w3 + "```"@ + w4) == Ok::<
            Seq<char>,
            Seq<char>,
        >(body),
{
    lemma_fenced_reply_cleaned(w1, w2, body, w3, w4);
}

} // verus!
