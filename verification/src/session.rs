//! Decisions of the application's commands that do not touch the outside
//! world: which API key is used, what a generation request needs, and which
//! compiler runs.

use vstd::prelude::*;

use crate::text::same_text;

verus! {

/// The key used for requests: the one in the system keychain when it could
/// be read and is not empty, else the one in the settings.
pub open spec fn effective_api_key(stored: Result<Seq<char>, Seq<char>>, settings_key: Seq<char>) -> Seq<char> {
    match stored {
        Ok(k) => if k.len() > 0 {
            k
        } else {
            settings_key
        },
        Err(_) => settings_key,
    }
}

/// Chooses the API key (see [`effective_api_key`]) from what reading the
/// keychain gave and the key kept in the settings.
pub fn choose_api_key(stored: Result<String, String>, settings_key: &str) -> (k: String)
    ensures
        k@ == effective_api_key(crate::latex::result_view(stored), settings_key@),
{
    match stored {
        Ok(key) => {
            if key.as_str().is_empty() {
                String::from_str(settings_key)
            } else {
                key
            }
        },
        Err(_) => String::from_str(settings_key),
    }
}

/// Error when no API key is set.
pub const NO_API_KEY: &'static str =
    "No API key set. Go to Settings to add your Google AI Studio API key.";

/// Error when the imported LaTeX is chosen but none was imported.
pub const NO_IMPORTED_LATEX: &'static str =
    "No imported LaTeX found. Import a LaTeX resume first, or select a built-in template.";

/// Error when a built-in template is chosen that does not exist.
pub const TEMPLATE_NOT_FOUND: &'static str = "Template not found";

/// Identifier of the imported LaTeX as a template choice.
pub const IMPORTED_TEMPLATE_ID: &'static str = "my-latex";

/// Succeeds when an API key is set.
pub fn require_api_key(api_key: &str) -> (r: Result<(), String>)
    ensures
        match r {
            Ok(()) => api_key@.len() > 0,
            Err(e) => api_key@.len() == 0 && e@ == NO_API_KEY@,
        },
{
    if api_key.is_empty() {
        Err(String::from_str(NO_API_KEY))
    } else {
        Ok(())
    }
}

/// How a tailored résumé is produced.
pub enum GenerationPlan {
    /// Rewrite the imported LaTeX source.
    RewriteImported { source_latex: String },
    /// Fill the built-in template with this identifier from the profile.
    FillTemplate { template_id: String },
}

/// What a generation request with these inputs does, or why it is refused.
pub open spec fn generation_plan(api_key: Seq<char>, template_id: Seq<char>, source_latex: Seq<char>) -> Result<
    (bool, Seq<char>),
    Seq<char>,
> {
    if api_key.len() == 0 {
        Err(NO_API_KEY@)
    } else if template_id == IMPORTED_TEMPLATE_ID@ {
        if source_latex.len() == 0 {
            Err(NO_IMPORTED_LATEX@)
        } else {
            Ok((true, source_latex))
        }
    } else {
        Ok((false, template_id))
    }
}

/// The view of a plan: whether the imported source is rewritten, and the
/// source or template identifier.
pub open spec fn plan_view(p: GenerationPlan) -> (bool, Seq<char>) {
    match p {
        GenerationPlan::RewriteImported { source_latex } => (true, source_latex@),
        GenerationPlan::FillTemplate { template_id } => (false, template_id@),
    }
}

/// Decides a generation request (see [`generation_plan`]).
pub fn plan_generation(api_key: &str, template_id: &str, source_latex: &str) -> (r: Result<
    GenerationPlan,
    String,
>)
    ensures
        match r {
            Ok(p) => generation_plan(api_key@, template_id@, source_latex@) == Ok::<
                (bool, Seq<char>),
                Seq<char>,
            >(plan_view(p)),
            Err(e) => generation_plan(api_key@, template_id@, source_latex@) == Err::<
                (bool, Seq<char>),
                Seq<char>,
            >(e@),
        },
{
    require_api_key(api_key)?;
    if same_text(template_id, IMPORTED_TEMPLATE_ID) {
        if source_latex.is_empty() {
            return Err(String::from_str(NO_IMPORTED_LATEX));
        }
        Ok(GenerationPlan::RewriteImported { source_latex: String::from_str(source_latex) })
    } else {
        Ok(GenerationPlan::FillTemplate { template_id: String::from_str(template_id) })
    }
}

/// The compile mode that sends the source to the online servers.
pub const ONLINE_MODE: &'static str = "online";

/// Whether `mode` selects the online compiler (any other mode compiles
/// locally).
pub fn uses_online_compiler(mode: &str) -> (b: bool)
    ensures
        b == (mode@ == ONLINE_MODE@),
{
    same_text(mode, ONLINE_MODE)
}

/// What a generation request does: without a key it is refused; the
/// imported LaTeX is rewritten only when `"my-latex"` is chosen (and refused
/// when none was imported); any other choice fills that template, whatever
/// LaTeX was imported earlier.
pub proof fn lemma_generation_plan(api_key: Seq<char>, template_id: Seq<char>, source_latex: Seq<char>)
    ensures
        api_key.len() == 0 ==> generation_plan(api_key, template_id, source_latex) == Err::<
            (bool, Seq<char>),
            Seq<char>,
        >(NO_API_KEY@),
        api_key.len() > 0 && template_id != "my-latex"@ ==> generation_plan(
            api_key,
            template_id,
            source_latex,
        ) == Ok::<(bool, Seq<char>), Seq<char>>((false, template_id)),
        api_key.len() > 0 && template_id == "my-latex"@ && source_latex.len() > 0
            ==> generation_plan(api_key, template_id, source_latex) == Ok::<
            (bool, Seq<char>),
            Seq<char>,
        >((true, source_latex)),
        api_key.len() > 0 && template_id == "my-latex"@ && source_latex.len() == 0
            ==> generation_plan(api_key, template_id, source_latex) == Err::<
            (bool, Seq<char>),
            Seq<char>,
        >(NO_IMPORTED_LATEX@),
{
}

/// Choosing a template other than the imported LaTeX gives the same plan
/// whatever LaTeX was imported.
pub proof fn lemma_template_choice_ignores_import(
    api_key: Seq<char>,
    template_id: Seq<char>,
    s1: Seq<char>,
    s2: Seq<char>,
)
    requires
        template_id != "my-latex"@,
    ensures
        generation_plan(api_key, template_id, s1) == generation_plan(api_key, template_id, s2),
{
}

} // verus!
