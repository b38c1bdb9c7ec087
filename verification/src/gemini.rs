//! The Gemini models offered, the reply format of the Gemini API, and the
//! client configuration.

use vstd::prelude::*;
use vstd::string::StringSliceAdditionalSpecFns;
use base64::Engine;

use crate::text::has_infix;

verus! {

/// A model that the user can choose.
pub struct ModelInfo {
    pub id: String,
    pub name: String,
    pub description: String,
    pub free: bool,
    pub recommended: bool,
}

/// The offered models as `(id, name, description, free, recommended)`, in
/// the order in which they are listed.
pub open spec fn available_models() -> Seq<(Seq<char>, Seq<char>, Seq<char>, bool, bool)> {
    seq![
        ("gemini-2.5-flash"@, "Gemini 2.5 Flash"@, "Fast and smart. Best balance of speed and quality. Free tier."@, true, true),
        ("gemini-2.5-flash-lite"@, "Gemini 2.5 Flash Lite"@, "Lighter and faster than Flash. Good for simple tasks. Free tier."@, true, false),
        ("gemini-2.0-flash"@, "Gemini 2.0 Flash"@, "Older but very stable. Great fallback when 2.5 is overloaded. Free tier."@, true, false),
        ("gemini-2.0-flash-lite"@, "Gemini 2.0 Flash Lite"@, "Lightest model. Last resort fallback. Free tier."@, true, false),
        ("gemini-2.5-pro"@, "Gemini 2.5 Pro"@, "Most capable model. Best quality but slower. Requires paid billing enabled."@, false, false),
        ("gemini-2.0-pro"@, "Gemini 2.0 Pro"@, "Older pro model. High quality. Requires paid billing enabled."@, false, false),
    ]
}

/// `m` is the model described by `d`.
pub open spec fn model_is(m: ModelInfo, d: (Seq<char>, Seq<char>, Seq<char>, bool, bool)) -> bool {
    &&& m.id@ == d.0
    &&& m.name@ == d.1
    &&& m.description@ == d.2
    &&& m.free == d.3
    &&& m.recommended == d.4
}

/// The models that the user can choose from.
pub fn list_available_models() -> (v: Vec<ModelInfo>)
    ensures
        v@.len() == available_models().len(),
        forall|i: int| 0 <= i < v@.len() ==> model_is(#[trigger] v@[i], available_models()[i]),
{
    let v = vec![
        ModelInfo {
            id: String::from_str("gemini-2.5-flash"),
            name: String::from_str("Gemini 2.5 Flash"),
            description: String::from_str(
                "Fast and smart. Best balance of speed and quality. Free tier.",
            ),
            free: true,
            recommended: true,
        },
        ModelInfo {
            id: String::from_str("gemini-2.5-flash-lite"),
            name: String::from_str("Gemini 2.5 Flash Lite"),
            description: String::from_str(
                "Lighter and faster than Flash. Good for simple tasks. Free tier.",
            ),
            free: true,
            recommended: false,
        },
        ModelInfo {
            id: String::from_str("gemini-2.0-flash"),
            name: String::from_str("Gemini 2.0 Flash"),
            description: String::from_str(
                "Older but very stable. Great fallback when 2.5 is overloaded. Free tier.",
            ),
            free: true,
            recommended: false,
        },
        ModelInfo {
            id: String::from_str("gemini-2.0-flash-lite"),
            name: String::from_str("Gemini 2.0 Flash Lite"),
            description: String::from_str(
                "Lightest model. Last resort fallback. Free tier.",
            ),
            free: true,
            recommended: false,
        },
        ModelInfo {
            id: String::from_str("gemini-2.5-pro"),
            name: String::from_str("Gemini 2.5 Pro"),
            description: String::from_str(
                "Most capable model. Best quality but slower. Requires paid billing enabled.",
            ),
            free: false,
            recommended: false,
        },
        ModelInfo {
            id: String::from_str("gemini-2.0-pro"),
            name: String::from_str("Gemini 2.0 Pro"),
            description: String::from_str(
                "Older pro model. High quality. Requires paid billing enabled.",
            ),
            free: false,
            recommended: false,
        },
    ];
    assert(model_is(v@[0], available_models()[0]));
    assert(model_is(v@[1], available_models()[1]));
    assert(model_is(v@[2], available_models()[2]));
    assert(model_is(v@[3], available_models()[3]));
    assert(model_is(v@[4], available_models()[4]));
    assert(model_is(v@[5], available_models()[5]));
    v
}

/// One part of a reply's content.
pub struct Part {
    pub text: Option<String>,
}

/// The content of a reply candidate.
pub struct Content {
    pub parts: Vec<Part>,
}

/// One candidate answer of a reply.
pub struct Candidate {
    pub content: Option<Content>,
    pub finish_reason: Option<String>,
}

/// A reply of the `generateContent` endpoint.
pub struct GeminiResponse {
    pub candidates: Vec<Candidate>,
}

/// The text of the first part of the first candidate, if there is one.
pub open spec fn first_text(r: GeminiResponse) -> Option<Seq<char>> {
    if r.candidates@.len() == 0 {
        None
    } else {
        match r.candidates@[0].content {
            None => None,
            Some(c) => if c.parts@.len() == 0 {
                None
            } else {
                match c.parts@[0].text {
                    None => None,
                    Some(t) => Some(t@),
                }
            },
        }
    }
}

/// Error when a reply carries no text.
pub const NO_TEXT_IN_REPLY: &'static str = "No text in Gemini response";

/// The text of the first part of the first candidate, or the error that a
/// reply without text gives.
pub fn reply_text(r: &GeminiResponse) -> (t: Result<String, String>)
    ensures
        match t {
            Ok(s) => first_text(*r) == Some(s@),
            Err(e) => first_text(*r) is None && e@ == NO_TEXT_IN_REPLY@,
        },
{
    if r.candidates.len() == 0 {
        return Err(String::from_str(NO_TEXT_IN_REPLY));
    }
    match &r.candidates[0].content {
        None => Err(String::from_str(NO_TEXT_IN_REPLY)),
        Some(c) => {
            if c.parts.len() == 0 {
                return Err(String::from_str(NO_TEXT_IN_REPLY));
            }
            match &c.parts[0].text {
                None => Err(String::from_str(NO_TEXT_IN_REPLY)),
                Some(t) => Ok(t.clone()),
            }
        },
    }
}

/// First part of the system instruction for rewriting imported LaTeX; the
/// imported source follows it.
pub const SOURCE_RULES: &'static str = "You are a LaTeX resume writer. Output ONLY raw LaTeX code — no markdown, no explanations, no code fences.\n\n\
            RULES:\n\
            - Output the COMPLETE .tex file and nothing else\n\
            - Every section must be complete and syntactically valid LaTeX\n\
            - Keep the EXACT same \\documentclass, ALL \\usepackage lines, and ALL custom command definitions (\\newcommand, \\def, etc.)\n\
            - Keep the EXACT same section structure and formatting commands (\\section, \\resumeSubheading, \\resumeItem, etc.)\n\
            - ONLY change the CONTENT — text inside commands, bullet points, which projects to include, which skills to list\n\
            - The document MUST compile with pdfLaTeX\n\
            - Do NOT invent new experience, projects, or skills that aren't in the original resume\n\
            - Keep the resume to 1 page — remove less relevant content if needed\n\
            - Max 3 bullets per project/role (2 if tight on space)\n\n\
            PROJECT SELECTION RULES (CRITICAL):\n\
            - ANALYZE every project in the original LaTeX resume\n\
            - RANK them by relevance to the job description\n\
            - Pick ONLY the 2-3 MOST relevant projects for this specific JD\n\
            - REMOVE all other projects entirely\n\
            - Example: If JD is for AI/ML role, pick AI/ML projects and REMOVE web dev projects\n\
            - Example: If JD is for backend role, pick backend/API projects and REMOVE frontend projects\n\
            - Rewrite bullet points to match JD focus (backend JD = emphasize APIs/DB/Docker, AI JD = emphasize models/NLP/LLM)\n\n\
            WORK EXPERIENCE RULES:\n\
            - Keep the same job titles, companies, and dates\n\
            - Rewrite bullet points to emphasize skills relevant to the JD\n\
            - Use action verbs. Quantify where possible.\n\n\
            SKILLS RULES:\n\
            - Keep ONLY skills relevant to the JD\n\
            - Remove irrelevant skills entirely\n\
            - Keep the same category format\n\
            - Reorder to put most JD-relevant skills first\n\n\
            SECTIONS THAT CHANGE: Summary (rewrite for JD), Work Experience bullets (rewrite), Projects (pick 2-3 most relevant + rewrite), Skills (filter for JD)\n\
            SECTIONS THAT STAY THE SAME: Contact info, Education, LaTeX preamble, custom commands, \\documentclass\n\n\
            CANDIDATE'S ORIGINAL LATEX RESUME:\n";

/// First part of the system instruction for filling a template; the profile
/// JSON follows it.
pub const PROFILE_RULES: &'static str = "You are a LaTeX resume writer. Output ONLY raw LaTeX code — no markdown, no explanations, no code fences.\n\n\
            RULES:\n\
            - Output the COMPLETE .tex file and nothing else\n\
            - Use the template structure EXACTLY as provided — same \\documentclass, \\usepackage, and custom commands\n\
            - ONLY fill in the content with tailored information from the candidate's profile\n\
            - The document MUST compile with pdfLaTeX\n\
            - Do NOT invent experience, projects, or skills not in the candidate's profile\n\
            - Keep the resume to 1 page — remove less relevant content if needed\n\
            - Max 3 bullets per project/role (2 if tight on space)\n\n\
            PROJECT SELECTION RULES (CRITICAL):\n\
            - ANALYZE every project in the candidate's profile\n\
            - RANK them by relevance to the job description\n\
            - Pick ONLY the 2-3 MOST relevant projects for this specific JD\n\
            - REMOVE all other projects entirely\n\
            - Example: If JD is for AI/ML role, pick AI/ML projects and REMOVE web dev projects\n\
            - Example: If JD is for backend role, pick backend/API projects and REMOVE frontend projects\n\
            - Rewrite bullet points to match JD focus (backend JD = emphasize APIs/DB/Docker, AI JD = emphasize models/NLP/LLM)\n\n\
            WORK EXPERIENCE RULES:\n\
            - Include most relevant roles. Rewrite bullets to emphasize JD-relevant skills.\n\
            - Use action verbs. Quantify where possible.\n\n\
            SKILLS RULES:\n\
            - Keep ONLY skills relevant to the JD. Remove irrelevant skills entirely.\n\
            - Reorder to put most JD-relevant skills first.\n\n\
            CANDIDATE PROFILE (JSON):\n";

/// Heading between the profile JSON and the template source.
pub const TEMPLATE_HEADING: &'static str = "\n\n\
            TEMPLATE (use this exact structure):\n";

/// Start of the user prompt; the job description follows it.
pub const USER_PROMPT_HEAD: &'static str = "Customize this resume for the job description below.\n\
            Output ONLY the complete .tex file. No markdown. No explanation. No code fences.\n\n\
            JOB DESCRIPTION:\n";

/// Heading between the job description and the considerations.
pub const CONSIDERATIONS_HEADING: &'static str = "\n\n\
            CONSIDERATIONS (must address these):\n";

/// Text used when the user gave no considerations.
pub const NO_CONSIDERATIONS: &'static str = "No specific considerations.";

/// The considerations as a bulleted list: each as `- ` and the text, one
/// per line.
pub open spec fn bullet_list(cs: Seq<Seq<char>>) -> Seq<char>
    decreases cs.len(),
{
    if cs.len() == 0 {
        Seq::empty()
    } else if cs.len() == 1 {
        "- "@ + cs[0]
    } else {
        bullet_list(cs.drop_last()) + "\n"@ + "- "@ + cs.last()
    }
}

/// The considerations section of the user prompt.
pub open spec fn considerations_section(cs: Seq<Seq<char>>) -> Seq<char> {
    if cs.len() == 0 {
        NO_CONSIDERATIONS@
    } else {
        bullet_list(cs)
    }
}

/// The views of a slice of strings.
pub open spec fn texts(v: Seq<String>) -> Seq<Seq<char>> {
    v.map_values(|s: String| s@)
}

/// The considerations as the user prompt lists them.
pub fn considerations_text(considerations: &[String]) -> (t: String)
    ensures
        t@ == considerations_section(texts(considerations@)),
{
    if considerations.len() == 0 {
        return String::from_str(NO_CONSIDERATIONS);
    }
    let ghost cs = texts(considerations@);
    let mut t = crate::text::concat("- ", considerations[0].as_str());
    assert(cs.take(1) =~= seq![cs[0]]);
    let mut i: usize = 1;
    while i < considerations.len()
        invariant
            1 <= i <= considerations@.len(),
            cs == texts(considerations@),
            t@ == bullet_list(cs.take(i as int)),
        decreases considerations.len() - i,
    {
        let line = crate::text::concat("- ", considerations[i].as_str());
        t = crate::text::concat3(t.as_str(), "\n", line.as_str());
        assert(cs.take(i + 1).drop_last() =~= cs.take(i as int));
        i = i + 1;
    }
    assert(cs.take(cs.len() as int) =~= cs);
    t
}

/// The system instruction for rewriting the imported LaTeX source.
pub fn source_system_instruction(original_latex: &str) -> (s: String)
    ensures
        s@ == SOURCE_RULES@ + original_latex@,
{
    crate::text::concat(SOURCE_RULES, original_latex)
}

/// The system instruction for filling a template from the profile (given
/// as JSON text).
pub fn profile_system_instruction(profile_json: &str, template_source: &str) -> (s: String)
    ensures
        s@ == PROFILE_RULES@ + profile_json@ + TEMPLATE_HEADING@ + template_source@,
{
    let a = crate::text::concat3(PROFILE_RULES, profile_json, TEMPLATE_HEADING);
    crate::text::concat(a.as_str(), template_source)
}

/// The user prompt: the job description and the considerations section.
pub fn user_prompt(jd: &str, considerations: &[String]) -> (s: String)
    ensures
        s@ == USER_PROMPT_HEAD@ + jd@ + CONSIDERATIONS_HEADING@ + considerations_section(
            texts(considerations@),
        ),
{
    let c = considerations_text(considerations);
    let a = crate::text::concat3(USER_PROMPT_HEAD, jd, CONSIDERATIONS_HEADING);
    crate::text::concat(a.as_str(), c.as_str())
}

/// Root of the Gemini REST API.
pub const BASE_URL: &'static str = "https://generativelanguage.googleapis.com/v1beta";

/// The fallback chain tried after the chosen model, in order.
pub open spec fn fallback_models() -> Seq<Seq<char>> {
    seq![
        "gemini-2.5-flash"@,
        "gemini-2.0-flash"@,
        "gemini-2.5-flash-lite"@,
        "gemini-2.0-flash-lite"@,
    ]
}

/// `s` with every element equal to `x` left out, order kept.
pub open spec fn without(s: Seq<Seq<char>>, x: Seq<char>) -> Seq<Seq<char>>
    decreases s.len(),
{
    if s.len() == 0 {
        s
    } else if s.last() == x {
        without(s.drop_last(), x)
    } else {
        without(s.drop_last(), x).push(s.last())
    }
}

/// The models tried for one request: the chosen model first, then the
/// fallback chain without it.
pub open spec fn models_to_try(chosen: Seq<char>) -> Seq<Seq<char>> {
    seq![chosen] + without(fallback_models(), chosen)
}

/// The model a client uses: the given one, or the default when empty.
pub open spec fn effective_model(model: Seq<char>) -> Seq<char> {
    if model.len() == 0 {
        crate::profile::DEFAULT_MODEL@
    } else {
        model
    }
}

/// The `generateContent` endpoint of `model`, authenticated with `api_key`.
pub open spec fn generate_url(model: Seq<char>, api_key: Seq<char>) -> Seq<char> {
    BASE_URL@ + "/models/"@ + model + ":generateContent?key="@ + api_key
}

/// The credentials and model choice for talking to Gemini.
pub struct GeminiClient {
    api_key: String,
    model: String,
}

impl GeminiClient {
    /// The API key.
    pub closed spec fn key(&self) -> Seq<char> {
        self.api_key@
    }

    /// The model requests go to first.
    pub closed spec fn chosen_model(&self) -> Seq<char> {
        self.model@
    }

    /// A client for `api_key`; an empty `model` selects the default model.
    pub fn new(api_key: &str, model: &str) -> (c: GeminiClient)
        ensures
            c.key() == api_key@,
            c.chosen_model() == effective_model(model@),
    {
        let model = if model.is_empty() {
            String::from_str(crate::profile::DEFAULT_MODEL)
        } else {
            String::from_str(model)
        };
        GeminiClient { api_key: String::from_str(api_key), model }
    }

    /// The API key.
    pub fn api_key(&self) -> (k: &str)
        ensures
            k@ == self.key(),
    {
        self.api_key.as_str()
    }

    /// The chosen model.
    pub fn model(&self) -> (m: &str)
        ensures
            m@ == self.chosen_model(),
    {
        self.model.as_str()
    }

    /// The endpoint URL for `model` with this client's key.
    pub fn request_url(&self, model: &str) -> (u: String)
        ensures
            u@ == generate_url(model@, self.key()),
    {
        let a = crate::text::concat3(BASE_URL, "/models/", model);
        crate::text::concat3(a.as_str(), ":generateContent?key=", self.api_key.as_str())
    }

    /// The models to try, in order (see [`models_to_try`]).
    pub fn models_to_try(&self) -> (v: Vec<String>)
        ensures
            texts(v@) == models_to_try(self.chosen_model()),
    {
        let chain: Vec<&str> = vec![
            "gemini-2.5-flash",
            "gemini-2.0-flash",
            "gemini-2.5-flash-lite",
            "gemini-2.0-flash-lite",
        ];
        let ghost all = fallback_models();
        assert(chain@.map_values(|p: &str| p@) =~= all);
        let mut v: Vec<String> = Vec::new();
        v.push(self.model.clone());
        let mut k: usize = 0;
        assert(texts(v@) =~= seq![self.model@] + without(all.take(0), self.model@));
        while k < chain.len()
            invariant
                k <= chain@.len(),
                chain@.map_values(|p: &str| p@) == all,
                texts(v@) == seq![self.model@] + without(all.take(k as int), self.model@),
            decreases chain.len() - k,
        {
            assert(chain@.map_values(|p: &str| p@)[k as int] == all[k as int]);
            assert(all.take(k + 1).drop_last() =~= all.take(k as int));
            assert(all.take(k + 1).last() == all[k as int]);
            let ghost before = v@;
            if !crate::text::same_text(chain[k], self.model.as_str()) {
                let m = String::from_str(chain[k]);
                v.push(m);
                assert(texts(v@) =~= texts(before).push(m@));
                assert(texts(v@) =~= seq![self.model@] + without(all.take(k + 1), self.model@));
            }
            k = k + 1;
        }
        assert(all.take(all.len() as int) =~= all);
        v
    }
}

/// How much detail a "model not available" note carries.
pub enum ReplyFormat {
    /// Plain text replies: the note includes the error body.
    Text,
    /// Profile JSON replies: the note names the model only.
    Profile,
}

/// What came back from one `generateContent` request.
pub enum GeminiReply {
    /// The request could not be sent; the transport error's text.
    ConnectionFailed { error: String },
    /// A reply whose status is not a success: status code, status line and
    /// body text.
    Rejected { code: u16, status: String, body: String },
    /// A successful reply whose body is not a Gemini response.
    Unreadable { error: String },
    /// A successful reply, decoded.
    Delivered { response: GeminiResponse },
}

/// The next request to make.
pub struct ModelRequest {
    pub model: String,
    /// Wait two seconds before sending (every request but the first).
    pub pause_first: bool,
}

/// Whether the fallback loop stops at `reply` from `model`, and with what.
pub open spec fn reply_verdict(model: Seq<char>, reply: GeminiReply) -> Option<
    Result<Seq<char>, Seq<char>>,
> {
    match reply {
        GeminiReply::ConnectionFailed { .. } => None,
        GeminiReply::Rejected { code, body, .. } => {
            if code == 503 || code == 429 || has_infix(body@, "not found"@) || has_infix(
                body@,
                "not supported"@,
            ) {
                None
            } else {
                Some(Err("Gemini API error: "@ + body@))
            }
        },
        GeminiReply::Unreadable { .. } => None,
        GeminiReply::Delivered { response } => match first_text(response) {
            Some(t) => Some(Ok(t)),
            None => Some(Err(NO_TEXT_IN_REPLY@)),
        },
    }
}

/// The error noted when the loop moves on from `model` after `reply`.
pub open spec fn reply_note(model: Seq<char>, reply: GeminiReply, format: ReplyFormat) -> Seq<
    char,
> {
    match reply {
        GeminiReply::ConnectionFailed { error } => "Connection error: "@ + error@,
        GeminiReply::Rejected { code, status, body } => {
            if code == 503 || code == 429 {
                model + " overloaded (HTTP "@ + status@ + "). Trying next model..."@
            } else {
                match format {
                    ReplyFormat::Text => "Model "@ + model + " not available: "@ + body@,
                    ReplyFormat::Profile => "Model "@ + model + " not available"@,
                }
            }
        },
        GeminiReply::Unreadable { error } => "Parse error: "@ + error@,
        GeminiReply::Delivered { .. } => Seq::empty(),
    }
}

/// A delivered reply always ends the request: with the text of the first
/// part of the first candidate when there is one, else with the error
/// "No text in Gemini response"; the model does not matter.
pub proof fn lemma_delivered_reply_ends(model: Seq<char>, response: GeminiResponse)
    ensures
        ({
            let v = reply_verdict(model, GeminiReply::Delivered { response });
            let rs = response.candidates@;
            let text = if rs.len() > 0 && rs[0].content is Some && rs[0].content->0.parts@.len() > 0 {
                rs[0].content->0.parts@[0].text
            } else {
                None
            };
            &&& v is Some
            &&& (text matches Some(t) ==> v == Some(Ok::<Seq<char>, Seq<char>>(t@)))
            &&& (text is None ==> v == Some(Err::<Seq<char>, Seq<char>>(
                "No text in Gemini response"@,
            )))
        }),
{
}

/// The error reported when every model failed.
pub open spec fn exhausted_message(last_error: Seq<char>) -> Seq<char> {
    "All Gemini models failed. Last error: "@ + last_error
}

/// Decides the model fallback of one generation request: which model to
/// ask next, and whether a reply ends the request.
pub struct ModelFallback {
    models: Vec<String>,
    next: usize,
    last_error: String,
    format: ReplyFormat,
}

impl ModelFallback {
    /// The models in the order they are tried.
    pub closed spec fn order(&self) -> Seq<Seq<char>> {
        texts(self.models@)
    }

    /// How many requests were made so far.
    pub closed spec fn tried(&self) -> nat {
        self.next as nat
    }

    /// The error noted last.
    pub closed spec fn last_error(&self) -> Seq<char> {
        self.last_error@
    }

    /// The reply format of the request.
    pub closed spec fn format(&self) -> ReplyFormat {
        self.format
    }

    /// Internal consistency.
    pub closed spec fn wf(&self) -> bool {
        self.next <= self.models@.len()
    }

    /// A fresh loop over the models of `client`.
    pub fn new(client: &GeminiClient, format: ReplyFormat) -> (f: ModelFallback)
        ensures
            f.wf(),
            f.order() == models_to_try(client.chosen_model()),
            f.tried() == 0,
            f.last_error().len() == 0,
            f.format() == format,
    {
        ModelFallback { models: client.models_to_try(), next: 0, last_error: String::new(), format }
    }

    /// The next request, or `None` when every model was tried.
    pub fn next_request(&self) -> (r: Option<ModelRequest>)
        requires
            self.wf(),
        ensures
            match r {
                None => self.tried() == self.order().len(),
                Some(q) => self.tried() < self.order().len() && q.model@ == self.order()[self.tried() as int]
                    && q.pause_first == (self.tried() > 0),
            },
    {
        if self.next < self.models.len() {
            Some(ModelRequest { model: self.models[self.next].clone(), pause_first: self.next > 0 })
        } else {
            None
        }
    }

    /// Takes the reply to the request for the current model. `Some` ends
    /// the request with its outcome; `None` moves on to the next model and
    /// notes the error.
    pub fn record(&mut self, reply: GeminiReply) -> (done: Option<Result<String, String>>)
        requires
            old(self).wf(),
            old(self).tried() < old(self).order().len(),
        ensures
            final(self).wf(),
            final(self).order() == old(self).order(),
            final(self).format() == old(self).format(),
            final(self).tried() == old(self).tried() + 1,
            reply is Delivered ==> done is Some,
            ({
                let model = old(self).order()[old(self).tried() as int];
                match done {
                    Some(res) => reply_verdict(model, reply) == Some(
                        crate::latex::result_view(res),
                    ) && final(self).last_error() == old(self).last_error(),
                    None => reply_verdict(model, reply) is None && final(self).last_error()
                        == reply_note(model, reply, old(self).format()),
                }
            }),
    {
        let ghost model_view = self.order()[self.tried() as int];
        let n = self.models.len();
        let model = self.models[self.next].clone();
        assert(model@ == model_view);
        assert(self.next < n);
        self.next = self.next + 1;
        match reply {
            GeminiReply::ConnectionFailed { error } => {
                self.last_error = crate::text::concat("Connection error: ", error.as_str());
                None
            },
            GeminiReply::Rejected { code, status, body } => {
                if code == 503 || code == 429 {
                    self.last_error = crate::text::concat3(
                        model.as_str(),
                        " overloaded (HTTP ",
                        status.as_str(),
                    );
                    self.last_error = crate::text::concat(
                        self.last_error.as_str(),
                        "). Trying next model...",
                    );
                    None
                } else if crate::text::text_contains(body.as_str(), "not found")
                    || crate::text::text_contains(body.as_str(), "not supported") {
                    let head = crate::text::concat("Model ", model.as_str());
                    match self.format {
                        ReplyFormat::Text => {
                            let a = crate::text::concat(head.as_str(), " not available: ");
                            self.last_error = crate::text::concat(a.as_str(), body.as_str());
                        },
                        ReplyFormat::Profile => {
                            self.last_error = crate::text::concat(head.as_str(), " not available");
                        },
                    }
                    None
                } else {
                    Some(Err(crate::text::concat("Gemini API error: ", body.as_str())))
                }
            },
            GeminiReply::Unreadable { error } => {
                self.last_error = crate::text::concat("Parse error: ", error.as_str());
                None
            },
            GeminiReply::Delivered { response } => Some(reply_text(&response)),
        }
    }

    /// The error of a request on which every model failed.
    pub fn exhausted_error(&self) -> (e: String)
        ensures
            e@ == exhausted_message(self.last_error()),
    {
        crate::text::concat("All Gemini models failed. Last error: ", self.last_error.as_str())
    }
}

/// The character of the standard base64 alphabet (RFC 4648) for the
/// six-bit value `v`.
pub open spec fn base64_digit(v: int) -> char {
    if v < 26 {
        (65 + v) as char
    } else if v < 52 {
        (97 + v - 26) as char
    } else if v < 62 {
        (48 + v - 52) as char
    } else if v == 62 {
        '+'
    } else {
        '/'
    }
}

/// The four characters for the 24-bit group `n`, of which the first
/// `used` characters (2, 3 or 4) carry data and the rest are `=` padding.
pub open spec fn base64_quad(n: int, used: int) -> Seq<char> {
    seq![
        base64_digit(n / 262144),
        base64_digit((n / 4096) % 64),
        if used >= 3 {
            base64_digit((n / 64) % 64)
        } else {
            '='
        },
        if used >= 4 {
            base64_digit(n % 64)
        } else {
            '='
        },
    ]
}

/// Standard base64 with `=` padding (RFC 4648, section 4): each group of
/// three bytes becomes four characters; a final group of one or two bytes
/// is padded.
pub open spec fn base64_standard(b: Seq<u8>) -> Seq<char>
    decreases b.len(),
{
    if b.len() == 0 {
        Seq::empty()
    } else if b.len() == 1 {
        base64_quad(b[0] * 65536, 2)
    } else if b.len() == 2 {
        base64_quad(b[0] * 65536 + b[1] * 256, 3)
    } else {
        base64_quad(b[0] * 65536 + b[1] * 256 + b[2], 4) + base64_standard(b.skip(3))
    }
}

/// Calls `STANDARD.encode(bytes)` of the base64 crate: the standard
/// alphabet with padding, as the crate documents its `STANDARD` engine.
/// Inputs whose encoded length would overflow `usize` (where the crate
/// panics) are excluded.
#[verifier::external_body]
fn encode_base64(bytes: &[u8]) -> (s: String)
    requires
        bytes@.len() <= 3 * (usize::MAX / 8),
    ensures
        s@ == base64_standard(bytes@),
{
    base64::engine::general_purpose::STANDARD.encode(bytes)
}

/// Encoded text is four characters for every started group of three
/// bytes.
pub proof fn lemma_base64_len(b: Seq<u8>)
    ensures
        base64_standard(b).len() == 4 * ((b.len() + 2) / 3),
    decreases b.len(),
{
    if b.len() > 2 {
        lemma_base64_len(b.skip(3));
    }
}

/// Largest PDF (in bytes) that may be sent for profile extraction.
pub const MAX_PDF_BYTES: usize = 20971520;

/// Error when the PDF is too large.
pub const PDF_TOO_LARGE: &'static str = "PDF is larger than 20MB. Please use a smaller file.";

/// The PDF encoded for upload, or the size error for a PDF over 20 MiB.
pub fn prepare_pdf_upload(bytes: &[u8]) -> (r: Result<String, String>)
    ensures
        match r {
            Ok(encoded) => bytes@.len() <= MAX_PDF_BYTES && encoded@ == base64_standard(bytes@),
            Err(e) => bytes@.len() > MAX_PDF_BYTES && e@ == PDF_TOO_LARGE@,
        },
{
    if bytes.len() > MAX_PDF_BYTES {
        return Err(String::from_str(PDF_TOO_LARGE));
    }
    Ok(encode_base64(bytes))
}

/// The number of leading bytes of a reply quoted in a parse error.
pub open spec fn quoted_len(text: &str) -> int {
    if text.spec_bytes().len() < 500 {
        text.spec_bytes().len() as int
    } else {
        500
    }
}

/// The error when a reply is not a valid profile: the parser's error and
/// the first 500 bytes of the reply (all of it when shorter). The cut must
/// fall on a character boundary.
pub fn profile_parse_error(error: &str, text: &str) -> (e: String)
    requires
        text.spec_bytes().len() <= usize::MAX,
        vstd::utf8::is_char_boundary(text.spec_bytes(), quoted_len(text)),
    ensures
        exists|quoted: &str|
            quoted.spec_bytes() == text.spec_bytes().subrange(0, quoted_len(text)) && e@
                == "Parse profile JSON error: "@ + error@ + ". Response: "@ + quoted@,
{
    let cut = if text.len() < 500 {
        text.len()
    } else {
        500
    };
    let (quoted, _) = text.split_at(cut);
    let a = crate::text::concat3("Parse profile JSON error: ", error, ". Response: ");
    let e = crate::text::concat(a.as_str(), quoted);
    assert(quoted.spec_bytes() == text.spec_bytes().subrange(0, quoted_len(text)));
    e
}

proof fn lemma_without(s: Seq<Seq<char>>, x: Seq<char>)
    ensures
        without(s, x).len() <= s.len(),
        forall|i: int| 0 <= i < without(s, x).len() ==> #[trigger] without(s, x)[i] != x,
        forall|i: int| 0 <= i < without(s, x).len() ==> s.contains(#[trigger] without(s, x)[i]),
        forall|m: Seq<char>| #[trigger] s.contains(m) && m != x ==> without(s, x).contains(m),
        (forall|i: int, j: int| 0 <= i < j < s.len() ==> s[i] != s[j]) ==> (forall|i: int, j: int|
            0 <= i < j < without(s, x).len() ==> without(s, x)[i] != without(s, x)[j]),
    decreases s.len(),
{
    if s.len() > 0 {
        let rest = s.drop_last();
        lemma_without(rest, x);
        assert forall|i: int| 0 <= i < without(s, x).len() implies s.contains(
            #[trigger] without(s, x)[i],
        ) by {
            if s.last() != x && i == without(s, x).len() - 1 {
                assert(s[s.len() - 1] == without(s, x)[i]);
            } else {
                let w = without(s, x)[i];
                assert(rest.contains(w));
                let k = choose|k: int| 0 <= k < rest.len() && rest[k] == w;
                assert(s[k] == w);
            }
        }
        assert forall|m: Seq<char>| #[trigger] s.contains(m) && m != x implies without(
            s,
            x,
        ).contains(m) by {
            let k = choose|k: int| 0 <= k < s.len() && s[k] == m;
            if k < s.len() - 1 {
                assert(rest[k] == m);
                assert(rest.contains(m));
                let j = choose|j: int| 0 <= j < without(rest, x).len() && without(rest, x)[j] == m;
                if s.last() != x {
                    assert(without(s, x)[j] == m);
                }
            } else {
                assert(without(s, x).last() == m);
            }
        }
        if forall|i: int, j: int| 0 <= i < j < s.len() ==> s[i] != s[j] {
            assert forall|i: int, j: int| 0 <= i < j < rest.len() implies rest[i] != rest[j] by {
                assert(s[i] == rest[i] && s[j] == rest[j]);
            }
            if s.last() != x {
                assert forall|i: int, j: int|
                    0 <= i < j < without(s, x).len() implies without(s, x)[i] != without(
                    s,
                    x,
                )[j] by {
                    if j == without(s, x).len() - 1 {
                        let w = without(rest, x)[i];
                        assert(without(s, x)[i] == w);
                        assert(rest.contains(w));
                        let k = choose|k: int| 0 <= k < rest.len() && rest[k] == w;
                        assert(s[k] == w);
                        assert(s[s.len() - 1] == s.last());
                    } else {
                        assert(without(s, x)[i] == without(rest, x)[i]);
                        assert(without(s, x)[j] == without(rest, x)[j]);
                    }
                }
            }
        }
    }
}

/// The fallback chain names four different models.
pub proof fn lemma_fallback_models_distinct()
    ensures
        forall|i: int, j: int|
            0 <= i < j < fallback_models().len() ==> fallback_models()[i] != fallback_models()[j],
{
    reveal_strlit("gemini-2.5-flash");
    reveal_strlit("gemini-2.0-flash");
    reveal_strlit("gemini-2.5-flash-lite");
    reveal_strlit("gemini-2.0-flash-lite");
    let f = fallback_models();
    assert(f[0][9] != f[1][9]);
    assert(f[0].len() != f[2].len());
    assert(f[0].len() != f[3].len());
    assert(f[1].len() != f[2].len());
    assert(f[1].len() != f[3].len());
    assert(f[2][9] != f[3][9]);
}

/// The order in which models are asked: the chosen model first; after it
/// every model of the fallback chain other than the chosen one, each once,
/// in chain order; no model twice.
pub proof fn lemma_models_to_try(chosen: Seq<char>)
    ensures
        models_to_try(chosen)[0] == chosen,
        forall|m: Seq<char>| #[trigger]
            fallback_models().contains(m) ==> models_to_try(chosen).contains(m),
        forall|i: int|
            1 <= i < models_to_try(chosen).len() ==> fallback_models().contains(
                #[trigger] models_to_try(chosen)[i],
            ),
        forall|i: int, j: int|
            0 <= i < j < models_to_try(chosen).len() ==> models_to_try(chosen)[i]
                != models_to_try(chosen)[j],
        models_to_try(chosen).len() <= 1 + fallback_models().len(),
{
    let f = fallback_models();
    let w = without(f, chosen);
    let all = models_to_try(chosen);
    lemma_without(f, chosen);
    lemma_fallback_models_distinct();
    assert forall|m: Seq<char>| #[trigger] f.contains(m) implies all.contains(m) by {
        if m == chosen {
            assert(all[0] == m);
        } else {
            assert(w.contains(m));
            let j = choose|j: int| 0 <= j < w.len() && w[j] == m;
            assert(all[j + 1] == m);
        }
    }
    assert forall|i: int| 1 <= i < all.len() implies f.contains(#[trigger] all[i]) by {
        assert(all[i] == w[i - 1]);
    }
    assert forall|i: int, j: int| 0 <= i < j < all.len() implies all[i] != all[j] by {
        assert(all[j] == w[j - 1]);
        if i > 0 {
            assert(all[i] == w[i - 1]);
        }
    }
}

} // verus!
