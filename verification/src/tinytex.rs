//! TinyTeX: the packages installed with it, and reading where the system
//! says pdflatex is.

use vstd::prelude::*;

use crate::text::{chars_of, string_from_range, trim, trim_bounds};

verus! {

/// The LaTeX packages installed into a fresh TinyTeX, in order.
pub open spec fn tinytex_package_names() -> Seq<Seq<char>> {
    seq![
        "xcolor"@,
        "enumitem"@,
        "hyperref"@,
        "geometry"@,
        "parskip"@,
        "lmodern"@,
        "lm-math"@,
        "latex-bin"@,
        "collection-latex"@,
        "collection-latexrecommended"@,
        "fontawesome5"@,
        "collection-fontsrecommended"@,
    ]
}

/// The packages to install with `tlmgr install`, in order.
pub fn tinytex_packages() -> (v: Vec<&'static str>)
    ensures
        v@.map_values(|p: &str| p@) == tinytex_package_names(),
{
    let v = vec![
        "xcolor",
        "enumitem",
        "hyperref",
        "geometry",
        "parskip",
        "lmodern",
        "lm-math",
        "latex-bin",
        "collection-latex",
        "collection-latexrecommended",
        "fontawesome5",
        "collection-fontsrecommended",
    ];
    assert(v@.map_values(|p: &str| p@) =~= tinytex_package_names());
    v
}

/// The path printed by `which pdflatex`: the output trimmed.
pub fn which_output_path(stdout: &str) -> (p: String)
    ensures
        p@ == trim(stdout@),
{
    crate::text::trim_text(stdout)
}

/// Index of the first line break of `s`, or its length.
pub open spec fn first_line_end(s: Seq<char>) -> int
    decreases s.len(),
{
    if s.len() == 0 {
        0
    } else if s[0] == '\n' {
        0
    } else {
        1 + first_line_end(s.drop_first())
    }
}

proof fn lemma_first_line_end(s: Seq<char>)
    ensures
        0 <= first_line_end(s) <= s.len(),
        first_line_end(s) < s.len() ==> s[first_line_end(s)] == '\n',
        forall|k: int| 0 <= k < first_line_end(s) ==> s[k] != '\n',
    decreases s.len(),
{
    if s.len() > 0 && s[0] != '\n' {
        lemma_first_line_end(s.drop_first());
        assert forall|k: int| 0 <= k < first_line_end(s) implies s[k] != '\n' by {
            if k > 0 {
                assert(s[k] == s.drop_first()[k - 1]);
            }
        }
    }
}

/// The path printed first by `where pdflatex`: the first line of the
/// output, trimmed; `None` when there is no output.
pub fn where_output_path(stdout: &str) -> (p: Option<String>)
    ensures
        match p {
            None => stdout@.len() == 0,
            Some(path) => stdout@.len() > 0 && path@ == trim(
                stdout@.subrange(0, first_line_end(stdout@)),
            ),
        },
{
    let c = chars_of(stdout);
    if c.len() == 0 {
        return None;
    }
    proof {
        lemma_first_line_end(c@);
    }
    let mut end: usize = 0;
    while end < c.len() && c[end] != '\n'
        invariant
            end <= c@.len(),
            end <= first_line_end(c@),
            0 <= first_line_end(c@) <= c@.len(),
            first_line_end(c@) < c@.len() ==> c@[first_line_end(c@)] == '\n',
        decreases c.len() - end,
    {
        end = end + 1;
    }
    let (i, j) = trim_bounds(&c, 0, end);
    Some(string_from_range(&c, i, j))
}

} // verus!
