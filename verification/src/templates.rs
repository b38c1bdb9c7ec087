//! The built-in LaTeX résumé templates.

use vstd::prelude::*;

use crate::latex::{BEGIN_DOCUMENT, DOCUMENT_CLASS, END_DOCUMENT};
use crate::text::{has_infix, occurs_at, same_text};

verus! {

/// A résumé template.
pub struct Template {
    pub id: String,
    pub name: String,
    pub description: String,
    pub source: String,
    pub built_in: bool,
}

/// Single-column classic template: what stands between `\documentclass` and `\begin{document}`.
pub const CLASSIC_PREAMBLE: &'static str = r#"[11pt,letterpaper]{article}

\usepackage[utf8]{inputenc}
\usepackage[T1]{fontenc}
\usepackage{lmodern}
\usepackage[margin=0.75in,top=0.6in,bottom=0.6in]{geometry}
\usepackage{enumitem}
\usepackage{hyperref}
\usepackage{xcolor}
\usepackage{parskip}

\hypersetup{colorlinks=true, urlcolor=blue, linkcolor=blue}

\setlist[itemize]{leftmargin=*, itemsep=1pt, topsep=2pt, parsep=0pt}

\newcommand{\resumesection}[1]{%
  \vspace{6pt}%
  {\large\bfseries\MakeUppercase{#1}}%
  \vspace{2pt}%
  \hrule
  \vspace{4pt}%
}

"#;

/// Single-column classic template: what stands between `\begin{document}` and `\end{document}`.
pub const CLASSIC_BODY: &'static str = r#"

\begin{center}
{\Large \bfseries YOUR NAME} \\[2pt]
email@example.com $\cdot$ (555) 555-5555 $\cdot$ City, State \\
github.com/username $\cdot$ linkedin.com/in/username $\cdot$ website.com
\end{center}

\resumesection{Summary}
Brief professional summary tailored to the role.

\resumesection{Experience}
\textbf{Job Title} $\cdot$ Company Name \hfill Start -- End \\
\begin{itemize}
\item Achievement bullet point with quantified results.
\item Another achievement relevant to the job description.
\end{itemize}

\resumesection{Projects}
\textbf{Project Name} \hfill github.com/project \\
\begin{itemize}
\item Description of project and technologies used.
\item Impact or outcome of the project.
\end{itemize}

\resumesection{Skills}
\textbf{Languages:} Python, JavaScript, SQL \\
\textbf{Frameworks:} React, Node.js, Django \\
\textbf{Tools:} Git, Docker, AWS

\resumesection{Education}
\textbf{Degree in Field} $\cdot$ Institution \hfill Start -- End

"#;


/// Modern template with accent rules: what stands between `\documentclass` and `\begin{document}`.
pub const MODERN_PREAMBLE: &'static str = r#"[11pt,letterpaper]{article}

\usepackage[utf8]{inputenc}
\usepackage[T1]{fontenc}
\usepackage{lmodern}
\usepackage[margin=0.75in,top=0.6in,bottom=0.6in]{geometry}
\usepackage{enumitem}
\usepackage{hyperref}
\usepackage{xcolor}
\usepackage{parskip}

\hypersetup{colorlinks=true, urlcolor=blue!70!black, linkcolor=blue!70!black}

\setlist[itemize]{leftmargin=14pt, itemsep=1pt, topsep=2pt, parsep=0pt}

\newcommand{\resumesection}[1]{%
  \vspace{8pt}%
  {\normalsize\bfseries\color{blue!70!black}\MakeUppercase{#1}\color{black}}%
  \vspace{-1pt}%
  \color{blue!70!black}\rule{\textwidth}{1pt}\color{black}%
  \vspace{4pt}%
}

\newcommand{\jobentry}[4]{
  \noindent\textbf{#1} at \textbf{#2} \hfill #3 -- #4 \\[1pt]
}
\newcommand{\projentry}[2]{
  \noindent\textbf{#1} \hfill #2 \\[1pt]
}

"#;

/// Modern template with accent rules: what stands between `\begin{document}` and `\end{document}`.
pub const MODERN_BODY: &'static str = r#"

\begin{center}
{\LARGE \bfseries YOUR NAME} \\[4pt]
\small email@example.com $\cdot$ (555) 555-5555 $\cdot$ City, State \\
github.com/username $\cdot$ linkedin.com/in/username
\end{center}
\vspace{2pt}

\resumesection{Professional Summary}
Results-driven professional with expertise in relevant areas. Brief 2-3 line summary tailored to the target role.

\resumesection{Work Experience}
\jobentry{Job Title}{Company Name}{Start Date}{End Date}
\begin{itemize}
\item Key achievement with metrics and impact.
\item Another achievement highlighting relevant skills.
\end{itemize}

\resumesection{Projects}
\projentry{Project Name}{github.com/project}
\begin{itemize}
\item Brief description of the project, technologies, and outcome.
\end{itemize}

\resumesection{Technical Skills}
\textbf{Languages:} Python, JavaScript, TypeScript, SQL \\
\textbf{Frameworks:} React, Node.js, Django, FastAPI \\
\textbf{Tools:} Git, Docker, AWS, CI/CD

\resumesection{Education}
\textbf{Degree in Field}, Institution \hfill Start -- End

\resumesection{Certifications}
\textbf{Certification Name}, Issuing Organization \hfill Date

"#;


/// Identifier of the classic template.
pub const ATS_CLASSIC_ID: &'static str = "ats-classic";

/// Identifier of the modern template.
pub const ATS_MODERN_ID: &'static str = "ats-modern";

/// A whole document: the class, `preamble`, the document's body `body`
/// between `\begin{document}` and `\end{document}`, and a closing newline.
pub open spec fn document_of(preamble: Seq<char>, body: Seq<char>) -> Seq<char> {
    DOCUMENT_CLASS@ + preamble + BEGIN_DOCUMENT@ + body + END_DOCUMENT@ + "\n"@
}

/// The LaTeX source of the classic template.
pub open spec fn classic_source() -> Seq<char> {
    document_of(CLASSIC_PREAMBLE@, CLASSIC_BODY@)
}

/// The LaTeX source of the modern template.
pub open spec fn modern_source() -> Seq<char> {
    document_of(MODERN_PREAMBLE@, MODERN_BODY@)
}

/// Puts a document together from its preamble and body.
fn assemble_document(preamble: &str, body: &str) -> (s: String)
    ensures
        s@ == document_of(preamble@, body@),
{
    let mut s = String::from_str(DOCUMENT_CLASS);
    s.append(preamble);
    s.append(BEGIN_DOCUMENT);
    s.append(body);
    s.append(END_DOCUMENT);
    s.append("\n");
    s
}

/// The LaTeX source of the classic template.
pub fn ats_classic() -> (s: String)
    ensures
        s@ == classic_source(),
{
    assemble_document(CLASSIC_PREAMBLE, CLASSIC_BODY)
}

/// The LaTeX source of the modern template.
pub fn ats_modern() -> (s: String)
    ensures
        s@ == modern_source(),
{
    assemble_document(MODERN_PREAMBLE, MODERN_BODY)
}

/// The built-in templates as `(id, name, description, source)`, in the
/// order in which they are listed; all are built in.
pub open spec fn builtin_templates() -> Seq<(Seq<char>, Seq<char>, Seq<char>, Seq<char>)> {
    seq![
        (
            ATS_CLASSIC_ID@,
            "ATS Classic"@,
            "Clean single-column resume, maximum ATS compatibility. Uses standard fonts and simple formatting."@,
            classic_source(),
        ),
        (
            ATS_MODERN_ID@,
            "ATS Modern"@,
            "Modern look with accent color rules, still ATS-friendly. Tabular skills section."@,
            modern_source(),
        ),
    ]
}

/// `t` is the built-in template described by `b`.
pub open spec fn template_is(t: Template, b: (Seq<char>, Seq<char>, Seq<char>, Seq<char>)) -> bool {
    &&& t.id@ == b.0
    &&& t.name@ == b.1
    &&& t.description@ == b.2
    &&& t.source@ == b.3
    &&& t.built_in
}

/// The built-in templates.
pub fn list_templates() -> (v: Vec<Template>)
    ensures
        v@.len() == builtin_templates().len(),
        forall|i: int| 0 <= i < v@.len() ==> template_is(#[trigger] v@[i], builtin_templates()[i]),
{
    let v = vec![
        Template {
            id: String::from_str(ATS_CLASSIC_ID),
            name: String::from_str("ATS Classic"),
            description: String::from_str(
                "Clean single-column resume, maximum ATS compatibility. Uses standard fonts and simple formatting.",
            ),
            source: ats_classic(),
            built_in: true,
        },
        Template {
            id: String::from_str(ATS_MODERN_ID),
            name: String::from_str("ATS Modern"),
            description: String::from_str(
                "Modern look with accent color rules, still ATS-friendly. Tabular skills section.",
            ),
            source: ats_modern(),
            built_in: true,
        },
    ];
    assert(template_is(v@[0], builtin_templates()[0]));
    assert(template_is(v@[1], builtin_templates()[1]));
    v
}

/// The source of the first built-in template with identifier `id`.
pub open spec fn template_source_of(id: Seq<char>) -> Option<Seq<char>> {
    if id == ATS_CLASSIC_ID@ {
        Some(classic_source())
    } else if id == ATS_MODERN_ID@ {
        Some(modern_source())
    } else {
        None
    }
}

/// The source of the built-in template with identifier `id`, if any.
pub fn get_template_source(id: &str) -> (s: Option<String>)
    ensures
        match s {
            Some(src) => template_source_of(id@) == Some(src@),
            None => template_source_of(id@) is None,
        },
{
    let templates = list_templates();
    let mut i: usize = 0;
    while i < templates.len()
        invariant
            i <= templates@.len(),
            templates@.len() == builtin_templates().len(),
            forall|k: int|
                0 <= k < templates@.len() ==> template_is(
                    #[trigger] templates@[k],
                    builtin_templates()[k],
                ),
            forall|k: int| 0 <= k < i ==> builtin_templates()[k].0 != id@,
        decreases templates.len() - i,
    {
        if same_text(templates[i].id.as_str(), id) {
            return Some(templates[i].source.clone());
        }
        i = i + 1;
    }
    None
}

/// Each listed template is found by its identifier, with its own source;
/// no other identifier finds a template.
pub proof fn lemma_listed_templates_found()
    ensures
        forall|i: int|
            0 <= i < builtin_templates().len() ==> template_source_of(
                #[trigger] builtin_templates()[i].0,
            ) == Some(builtin_templates()[i].3),
        forall|id: Seq<char>|
            #![trigger template_source_of(id)]
            (forall|i: int| 0 <= i < builtin_templates().len() ==> builtin_templates()[i].0 != id)
                ==> template_source_of(id) is None,
{
    reveal_strlit("ats-classic");
    reveal_strlit("ats-modern");
    assert(ATS_CLASSIC_ID@.len() != ATS_MODERN_ID@.len());
    assert forall|id: Seq<char>|
        #![trigger template_source_of(id)]
        (forall|i: int| 0 <= i < builtin_templates().len() ==> builtin_templates()[i].0 != id)
            implies template_source_of(id) is None by {
        assert(builtin_templates()[0].0 != id);
        assert(builtin_templates()[1].0 != id);
    }
}

/// Every built-in template is a whole LaTeX document: it has a document
/// class, a `\begin{document}` and an `\end{document}`.
pub proof fn lemma_builtin_templates_are_documents()
    ensures
        forall|i: int|
            0 <= i < builtin_templates().len() ==> {
                let src = (#[trigger] builtin_templates()[i]).3;
                &&& has_infix(src, DOCUMENT_CLASS@)
                &&& has_infix(src, BEGIN_DOCUMENT@)
                &&& has_infix(src, END_DOCUMENT@)
            },
{
    lemma_document_parts(CLASSIC_PREAMBLE@, CLASSIC_BODY@);
    lemma_document_parts(MODERN_PREAMBLE@, MODERN_BODY@);
}

/// A document put together by `document_of` has its class, its
/// `\begin{document}` and its `\end{document}`.
proof fn lemma_document_parts(preamble: Seq<char>, body: Seq<char>)
    ensures
        has_infix(document_of(preamble, body), DOCUMENT_CLASS@),
        has_infix(document_of(preamble, body), BEGIN_DOCUMENT@),
        has_infix(document_of(preamble, body), END_DOCUMENT@),
{
    let t = document_of(preamble, body);
    let b: int = DOCUMENT_CLASS@.len() + preamble.len() as int;
    let e: int = b + BEGIN_DOCUMENT@.len() + body.len();
    assert(t.subrange(0, DOCUMENT_CLASS@.len() as int) =~= DOCUMENT_CLASS@);
    assert(occurs_at(t, DOCUMENT_CLASS@, 0));
    assert(t.subrange(b, b + BEGIN_DOCUMENT@.len() as int) =~= BEGIN_DOCUMENT@);
    assert(occurs_at(t, BEGIN_DOCUMENT@, b));
    assert(t.subrange(e, e + END_DOCUMENT@.len() as int) =~= END_DOCUMENT@);
    assert(occurs_at(t, END_DOCUMENT@, e));
}

} // verus!
