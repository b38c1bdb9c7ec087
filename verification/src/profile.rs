//! The résumé profile, the application settings, and their defaults.

use vstd::prelude::*;

verus! {

/// Contact details and summary of the candidate.
pub struct Basics {
    pub name: String,
    pub email: String,
    pub phone: String,
    pub location: String,
    pub website: String,
    pub github: String,
    pub linkedin: String,
    pub summary: String,
}

impl Basics {
    /// Every field is empty.
    pub open spec fn is_blank(&self) -> bool {
        &&& self.name@.len() == 0
        &&& self.email@.len() == 0
        &&& self.phone@.len() == 0
        &&& self.location@.len() == 0
        &&& self.website@.len() == 0
        &&& self.github@.len() == 0
        &&& self.linkedin@.len() == 0
        &&& self.summary@.len() == 0
    }
}

impl Default for Basics {
    fn default() -> (b: Basics)
        ensures
            b.is_blank(),
    {
        Basics {
            name: String::new(),
            email: String::new(),
            phone: String::new(),
            location: String::new(),
            website: String::new(),
            github: String::new(),
            linkedin: String::new(),
            summary: String::new(),
        }
    }
}

/// One position held.
pub struct WorkExperience {
    pub id: String,
    pub company: String,
    pub position: String,
    pub start_date: String,
    pub end_date: String,
    pub highlights: Vec<String>,
}

/// One project.
pub struct Project {
    pub id: String,
    pub name: String,
    pub description: String,
    pub tech: Vec<String>,
    pub url: String,
    pub highlights: Vec<String>,
}

/// A named group of skills.
pub struct SkillGroup {
    pub id: String,
    pub category: String,
    pub items: Vec<String>,
}

/// One degree or course of study.
pub struct Education {
    pub id: String,
    pub institution: String,
    pub degree: String,
    pub field: String,
    pub start_date: String,
    pub end_date: String,
    pub gpa: String,
    pub highlights: Vec<String>,
}

/// One certification.
pub struct Certification {
    pub id: String,
    pub name: String,
    pub issuer: String,
    pub date: String,
}

/// One award.
pub struct Award {
    pub id: String,
    pub title: String,
    pub date: String,
    pub awarder: String,
}

/// A free key/value entry.
pub struct CustomField {
    pub id: String,
    pub key: String,
    pub value: String,
}

/// The structured résumé of the candidate.
pub struct Profile {
    pub basics: Basics,
    pub work: Vec<WorkExperience>,
    pub projects: Vec<Project>,
    pub skills: Vec<SkillGroup>,
    pub education: Vec<Education>,
    pub certifications: Vec<Certification>,
    pub awards: Vec<Award>,
    pub custom: Vec<CustomField>,
}

impl Profile {
    /// Blank basics and no entries in any list.
    pub open spec fn is_empty(&self) -> bool {
        &&& self.basics.is_blank()
        &&& self.work@.len() == 0
        &&& self.projects@.len() == 0
        &&& self.skills@.len() == 0
        &&& self.education@.len() == 0
        &&& self.certifications@.len() == 0
        &&& self.awards@.len() == 0
        &&& self.custom@.len() == 0
    }
}

impl Default for Profile {
    fn default() -> (p: Profile)
        ensures
            p.is_empty(),
    {
        Profile {
            basics: Basics::default(),
            work: Vec::new(),
            projects: Vec::new(),
            skills: Vec::new(),
            education: Vec::new(),
            certifications: Vec::new(),
            awards: Vec::new(),
            custom: Vec::new(),
        }
    }
}

/// The model used when none is configured.
pub const DEFAULT_MODEL: &'static str = "gemini-2.5-flash";

/// The compile mode used when none is configured.
pub const DEFAULT_COMPILE_MODE: &'static str = "online";

/// Opening of the profile extraction instructions, before the source is
/// named.
pub const EXTRACT_PROMPT_INTRO: &'static str = "Extract a structured resume from ";

/// The rest of the profile extraction instructions, after the sentence
/// that names the source: the JSON structure expected back.
pub const EXTRACT_PROMPT_BODY: &'static str = " Return a JSON object with exactly this structure:\n\
    {\n\
      \"basics\": {\"name\":\"\",\"email\":\"\",\"phone\":\"\",\"location\":\"\",\"website\":\"\",\"github\":\"\",\"linkedin\":\"\",\"summary\":\"\"},\n\
      \"work\": [{\"id\":\"\",\"company\":\"\",\"position\":\"\",\"startDate\":\"\",\"endDate\":\"\",\"highlights\":[]}],\n\
      \"projects\": [{\"id\":\"\",\"name\":\"\",\"description\":\"\",\"tech\":[],\"url\":\"\",\"highlights\":[]}],\n\
      \"skills\": [{\"id\":\"\",\"category\":\"\",\"items\":[]}],\n\
      \"education\": [{\"id\":\"\",\"institution\":\"\",\"degree\":\"\",\"field\":\"\",\"startDate\":\"\",\"endDate\":\"\",\"gpa\":\"\",\"highlights\":[]}],\n\
      \"certifications\": [{\"id\":\"\",\"name\":\"\",\"issuer\":\"\",\"date\":\"\"}],\n\
      \"awards\": [{\"id\":\"\",\"title\":\"\",\"date\":\"\",\"awarder\":\"\"}],\n\
      \"custom\": [{\"id\":\"\",\"key\":\"\",\"value\":\"\"}]\n\
    }\n\
    Generate a UUID for each id field. Fill all fields from the resume content. Use empty strings for missing data. Return ONLY the JSON.";

/// The profile extraction instructions for a source named `subject`.
pub open spec fn extract_prompt(subject: Seq<char>) -> Seq<char> {
    EXTRACT_PROMPT_INTRO@ + subject + "."@ + EXTRACT_PROMPT_BODY@
}

/// Instruction for extracting a profile from a PDF résumé.
pub open spec fn extract_prompt_pdf() -> Seq<char> {
    extract_prompt("this PDF"@)
}

/// Instruction for extracting a profile from a LaTeX résumé.
pub open spec fn extract_prompt_latex() -> Seq<char> {
    extract_prompt("this LaTeX source"@)
}

/// Template of the instruction for generating a tailored résumé.
pub const GENERATE_PROMPT: &'static str = "You are an expert resume writer. Create a complete, compilable pdfLaTeX document for a resume tailored to a job description.\n\n\
    ## Candidate Profile (JSON):\n{PROFILE}\n\n\
    ## Job Description:\n{JD}\n\n\
    ## Considerations (must address these):\n{CONSIDERATIONS}\n\n\
    ## Template Structure (use this as the base, fill in tailored content):\n{TEMPLATE}\n\n\
    ## Instructions:\n\
    1. Tailor the summary, work highlights, project descriptions, and skills to match the job description.\n\
    2. Quantify achievements where possible. Use action verbs.\n\
    3. Reorder and emphasize experiences most relevant to the JD.\n\
    4. Keep it to one page if possible, maximum two pages.\n\
    5. Ensure the LaTeX compiles with pdfLaTeX (not XeLaTeX).\n\
    6. Output ONLY the complete .tex source code. No explanations, no markdown fences.\n\
    7. Use the template structure above but customize all content fields for the JD.\n\
    8. Keep the same LaTeX formatting, packages, and structure as the template.";

/// The default model identifier.
pub fn default_model() -> (s: String)
    ensures
        s@ == DEFAULT_MODEL@,
{
    String::from_str(DEFAULT_MODEL)
}

/// The default compile mode.
pub fn default_compile_mode() -> (s: String)
    ensures
        s@ == DEFAULT_COMPILE_MODE@,
{
    String::from_str(DEFAULT_COMPILE_MODE)
}

/// The default instruction for extracting a profile from a PDF.
pub fn default_extract_prompt_pdf() -> (s: String)
    ensures
        s@ == extract_prompt_pdf(),
{
    let mut s = crate::text::concat3(EXTRACT_PROMPT_INTRO, "this PDF", ".");
    s.append(EXTRACT_PROMPT_BODY);
    s
}

/// The default instruction for extracting a profile from LaTeX.
pub fn default_extract_prompt_latex() -> (s: String)
    ensures
        s@ == extract_prompt_latex(),
{
    let mut s = crate::text::concat3(EXTRACT_PROMPT_INTRO, "this LaTeX source", ".");
    s.append(EXTRACT_PROMPT_BODY);
    s
}

/// The default instruction template for generating a résumé.
pub fn default_generate_prompt() -> (s: String)
    ensures
        s@ == GENERATE_PROMPT@,
{
    String::from_str(GENERATE_PROMPT)
}

/// The application settings.
pub struct Settings {
    pub output_folder: String,
    pub model: String,
    pub tinytex_path: String,
    pub compile_mode: String,
    pub api_key: String,
    pub considerations: Vec<String>,
    pub source_latex: String,
    pub import_source: String,
    pub extract_prompt_pdf: String,
    pub extract_prompt_latex: String,
    pub generate_prompt: String,
}

impl Settings {
    /// The default settings, except for the API key and the output folder.
    pub open spec fn has_defaults_besides_key(&self, output_folder: Seq<char>) -> bool {
        &&& self.output_folder@ == output_folder
        &&& self.model@ == DEFAULT_MODEL@
        &&& self.tinytex_path@.len() == 0
        &&& self.compile_mode@ == DEFAULT_COMPILE_MODE@
        &&& self.considerations@.len() == 0
        &&& self.source_latex@.len() == 0
        &&& self.import_source@.len() == 0
        &&& self.extract_prompt_pdf@ == extract_prompt_pdf()
        &&& self.extract_prompt_latex@ == extract_prompt_latex()
        &&& self.generate_prompt@ == GENERATE_PROMPT@
    }

    /// The default settings, saving to `output_folder` (by default the
    /// `TailorResume` folder in the user's documents folder, which the
    /// caller locates).
    pub fn defaults(output_folder: String) -> (s: Settings)
        ensures
            s.has_defaults_besides_key(output_folder@),
            s.api_key@.len() == 0,
    {
        Settings {
            output_folder,
            model: default_model(),
            tinytex_path: String::new(),
            compile_mode: default_compile_mode(),
            api_key: String::new(),
            considerations: Vec::new(),
            source_latex: String::new(),
            import_source: String::new(),
            extract_prompt_pdf: default_extract_prompt_pdf(),
            extract_prompt_latex: default_extract_prompt_latex(),
            generate_prompt: default_generate_prompt(),
        }
    }
}

/// `after` equals `before` except perhaps in the import fields.
pub open spec fn same_but_import(before: Settings, after: Settings) -> bool {
    &&& after.output_folder == before.output_folder
    &&& after.model == before.model
    &&& after.tinytex_path == before.tinytex_path
    &&& after.compile_mode == before.compile_mode
    &&& after.api_key == before.api_key
    &&& after.considerations == before.considerations
    &&& after.extract_prompt_pdf == before.extract_prompt_pdf
    &&& after.extract_prompt_latex == before.extract_prompt_latex
    &&& after.generate_prompt == before.generate_prompt
}

impl Settings {
    /// Restores the default settings with `output_folder` as the default
    /// output folder, keeping the API key.
    pub fn reset_keeping_api_key(&mut self, output_folder: String)
        ensures
            final(self).has_defaults_besides_key(output_folder@),
            final(self).api_key == old(self).api_key,
    {
        let api_key = self.api_key.clone();
        *self = Settings::defaults(output_folder);
        self.api_key = api_key;
    }

    /// The profile is entered by hand: no imported LaTeX.
    pub fn use_manual_import(&mut self)
        ensures
            same_but_import(*old(self), *final(self)),
            final(self).import_source@ == "manual"@,
            final(self).source_latex@.len() == 0,
    {
        self.import_source = String::from_str("manual");
        self.source_latex = String::new();
    }

    /// The résumé is the imported LaTeX `latex`.
    pub fn use_latex_import(&mut self, latex: String)
        ensures
            same_but_import(*old(self), *final(self)),
            final(self).import_source@ == "latex"@,
            final(self).source_latex == latex,
    {
        self.import_source = String::from_str("latex");
        self.source_latex = latex;
    }

    /// The profile was extracted from a PDF: no imported LaTeX.
    pub fn use_pdf_import(&mut self)
        ensures
            same_but_import(*old(self), *final(self)),
            final(self).import_source@ == "pdf"@,
            final(self).source_latex@.len() == 0,
    {
        self.import_source = String::from_str("pdf");
        self.source_latex = String::new();
    }
}

/// The PDF extraction instructions open with "Extract a structured resume
/// from this PDF."; the LaTeX ones are the PDF ones with the first mention
/// of "this PDF" replaced by "this LaTeX source".
pub proof fn lemma_extract_prompts_differ_in_subject()
    ensures
        crate::text::has_prefix(extract_prompt_pdf(), "Extract a structured resume from this PDF."@),
        ({
            let pdf = extract_prompt_pdf();
            let k = EXTRACT_PROMPT_INTRO@.len() as int;
            &&& crate::text::occurs_at(pdf, "this PDF"@, k)
            &&& forall|i: int| 0 <= i < k ==> !crate::text::occurs_at(pdf, "this PDF"@, i)
            &&& extract_prompt_latex() == pdf.subrange(0, k) + "this LaTeX source"@ + pdf.skip(
                k + "this PDF"@.len(),
            )
        }),
{
    reveal_strlit("Extract a structured resume from ");
    reveal_strlit("this PDF");
    let pdf = extract_prompt_pdf();
    let intro = EXTRACT_PROMPT_INTRO@;
    let k = intro.len() as int;
    assert(pdf.subrange(k, k + 8) =~= "this PDF"@);
    assert(pdf.subrange(0, k) =~= intro);
    assert(pdf.skip(k + 8) =~= "."@ + EXTRACT_PROMPT_BODY@);
    reveal_strlit(".");
    reveal_strlit("Extract a structured resume from this PDF.");
    assert(pdf.subrange(0, k + 9) =~= "Extract a structured resume from this PDF."@);
    assert(pdf[k] == 't');
    assert forall|i: int| 0 <= i < k implies !crate::text::occurs_at(pdf, "this PDF"@, i) by {
        if crate::text::occurs_at(pdf, "this PDF"@, i) {
            assert(pdf[i] == pdf.subrange(i, i + 8)[0]);
            assert(pdf[i + 1] == pdf.subrange(i, i + 8)[1]);
            if i == 0 {
                assert(pdf[0] == intro[0]);
            } else if i == 1 {
                assert(pdf[1] == intro[1]);
            } else if i == 2 {
                assert(pdf[2] == intro[2]);
            } else if i == 3 {
                assert(pdf[3] == intro[3]);
            } else if i == 4 {
                assert(pdf[4] == intro[4]);
            } else if i == 5 {
                assert(pdf[5] == intro[5]);
            } else if i == 6 {
                assert(pdf[6] == intro[6]);
            } else if i == 7 {
                assert(pdf[7] == intro[7]);
            } else if i == 8 {
                assert(pdf[8] == intro[8]);
            } else if i == 9 {
                assert(pdf[9] == intro[9]);
            } else if i == 10 {
                assert(pdf[10] == intro[10]);
            } else if i == 11 {
                assert(pdf[11] == intro[11]);
            } else if i == 12 {
                assert(pdf[12] == intro[12]);
            } else if i == 13 {
                assert(pdf[13] == intro[13]);
            } else if i == 14 {
                assert(pdf[14] == intro[14]);
            } else if i == 15 {
                assert(pdf[15] == intro[15]);
            } else if i == 16 {
                assert(pdf[16] == intro[16]);
            } else if i == 17 {
                assert(pdf[17] == intro[17]);
            } else if i == 18 {
                assert(pdf[18] == intro[18]);
            } else if i == 19 {
                assert(pdf[19] == intro[19]);
            } else if i == 20 {
                assert(pdf[20] == intro[20]);
            } else if i == 21 {
                assert(pdf[21] == intro[21]);
            } else if i == 22 {
                assert(pdf[22] == intro[22]);
            } else if i == 23 {
                assert(pdf[23] == intro[23]);
            } else if i == 24 {
                assert(pdf[24] == intro[24]);
            } else if i == 25 {
                assert(pdf[25] == intro[25]);
            } else if i == 26 {
                assert(pdf[26] == intro[26]);
            } else if i == 27 {
                assert(pdf[27] == intro[27]);
            } else if i == 28 {
                assert(pdf[28] == intro[28]);
            } else if i == 29 {
                assert(pdf[29] == intro[29]);
            } else if i == 30 {
                assert(pdf[30] == intro[30]);
            } else if i == 31 {
                assert(pdf[31] == intro[31]);
            } else if i == 32 {
                assert(pdf[32] == intro[32]);
            }
            assert(false);
        }
    }
}

} // verus!
