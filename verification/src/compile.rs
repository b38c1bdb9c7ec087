//! Decisions of LaTeX compilation: the local pdfLaTeX run, the retry with
//! unsupported packages removed, and the online compile servers.

use vstd::prelude::*;

use crate::latex::{strip_unsupported, strip_unsupported_packages};
use crate::text::{concat, concat3, has_infix, has_prefix, text_contains};

verus! {

/// The outcome of a compilation.
pub struct CompileResult {
    pub success: bool,
    pub pdf_path: Option<String>,
    pub log: String,
    pub error: Option<String>,
}

/// The abstract value of a [`CompileResult`]:
/// `(success, pdf_path, log, error)`.
pub type CompileView = (bool, Option<Seq<char>>, Seq<char>, Option<Seq<char>>);

/// The view of an optional string.
pub open spec fn opt_view(o: Option<String>) -> Option<Seq<char>> {
    match o {
        Some(s) => Some(s@),
        None => None,
    }
}

impl View for CompileResult {
    type V = CompileView;

    open spec fn view(&self) -> CompileView {
        (self.success, opt_view(self.pdf_path), self.log@, opt_view(self.error))
    }
}

/// A failed compilation with `log` and `error`.
pub open spec fn failure(log: Seq<char>, error: Seq<char>) -> CompileView {
    (false, None, log, Some(error))
}

/// A successful compilation that wrote the PDF at `path`.
pub open spec fn delivered(path: Seq<char>, log: Seq<char>) -> CompileView {
    (true, Some(path), log, None)
}

fn failed(log: String, error: String) -> (r: CompileResult)
    ensures
        r@ == failure(log@, error@),
{
    CompileResult { success: false, pdf_path: None, log, error: Some(error) }
}

fn succeeded(path: String, log: String) -> (r: CompileResult)
    ensures
        r@ == delivered(path@, log@),
{
    CompileResult { success: true, pdf_path: Some(path), log, error: None }
}

/// A failed first compilation that is worth retrying without the
/// unsupported packages: its error and log mention a missing `.sty` file.
pub open spec fn wants_package_retry(first: CompileView) -> bool {
    &&& !first.0
    &&& first.3 matches Some(err)
    &&& {
        let combined = err + " "@ + first.2;
        &&& has_infix(combined, ".sty"@)
        &&& (has_infix(combined, "not found"@) || has_infix(combined, "File `"@))
    }
}

/// The source to compile again after `first` failed: the source with the
/// unsupported packages removed, when the failure was a missing style file
/// and removing them changes the source.
pub fn offline_retry_source(first: &CompileResult, latex: &str) -> (r: Option<String>)
    ensures
        match r {
            Some(s) => wants_package_retry(first@) && s@ == strip_unsupported(latex@) && s@
                != latex@,
            None => !(wants_package_retry(first@) && strip_unsupported(latex@) != latex@),
        },
{
    if first.success {
        return None;
    }
    match &first.error {
        None => None,
        Some(err) => {
            let combined = concat3(err.as_str(), " ", first.log.as_str());
            if text_contains(combined.as_str(), ".sty") && (text_contains(
                combined.as_str(),
                "not found",
            ) || text_contains(combined.as_str(), "File `")) {
                let cleaned = strip_unsupported_packages(latex);
                if crate::text::same_text(cleaned.as_str(), latex) {
                    None
                } else {
                    Some(cleaned)
                }
            } else {
                None
            }
        },
    }
}

/// What to do after the first local compilation.
pub enum OfflineStep {
    /// Compile `source` (the source without the unsupported packages) once
    /// more; `first` is the first result, kept for
    /// [`finish_offline_retry`].
    Retry { first: CompileResult, source: String },
    /// The compilation is over with this result.
    Done(CompileResult),
}

/// Decides, from the first local compilation `first` of `latex_source`,
/// whether to compile once more: only when it failed for a missing style
/// file and removing the unsupported packages changes the source, and then
/// on that cleaned source. Otherwise the first result is final, so a
/// successful first compilation is never followed by another.
pub fn try_compile_offline(latex_source: &str, first: CompileResult) -> (step: OfflineStep)
    ensures
        match step {
            OfflineStep::Retry { first: kept, source } => {
                &&& wants_package_retry(first@)
                &&& strip_unsupported(latex_source@) != latex_source@
                &&& source@ == strip_unsupported(latex_source@)
                &&& kept == first
            },
            OfflineStep::Done(r) => {
                &&& !(wants_package_retry(first@) && strip_unsupported(latex_source@)
                    != latex_source@)
                &&& r == first
            },
        },
        first.success ==> step == OfflineStep::Done(first),
{
    match offline_retry_source(&first, latex_source) {
        None => OfflineStep::Done(first),
        Some(source) => OfflineStep::Retry { first, source },
    }
}

/// The result of a local compilation that was retried: the second result
/// when it succeeded, the first one otherwise.
pub fn finish_offline_retry(first: CompileResult, second: CompileResult) -> (r: CompileResult)
    ensures
        r == (if second.success {
            second
        } else {
            first
        }),
{
    if second.success {
        second
    } else {
        first
    }
}

/// What `String::from_utf8_lossy` returns for `bytes`.
pub uninterp spec fn utf8_lossy(bytes: Seq<u8>) -> Seq<char>;

/// Calls `String::from_utf8_lossy(bytes)`. The contract claims the result
/// is a function of the bytes (named `utf8_lossy`) that equals the decoded
/// text whenever the bytes are valid UTF-8, as std documents; what replaces
/// invalid sequences is not stated.
#[verifier::external_body]
fn lossy_text(bytes: &[u8]) -> (s: String)
    ensures
        s@ == utf8_lossy(bytes@),
        vstd::utf8::valid_utf8(bytes@) ==> s@ == vstd::utf8::decode_utf8(bytes@),
{
    String::from_utf8_lossy(bytes).into_owned()
}

/// The compile servers, in the order they are tried.
pub open spec fn online_hosts() -> Seq<Seq<char>> {
    seq!["https://latexonline.cc"@, "https://texlive2020.latexonline.cc"@]
}

/// The compile request path appended to a host.
pub const COMPILE_PATH: &'static str = "/data?target=resume.tex&command=pdflatex&force=true";

/// What came back from one compile server.
pub enum OnlineReply {
    /// The request could not be sent.
    ConnectionFailed { error: String },
    /// The reply body could not be read.
    ReadFailed { error: String },
    /// A reply: status code, status line and body.
    Received { code: u16, status: String, body: Vec<u8> },
}

/// What to do after a server's reply.
pub enum OnlineStep {
    /// Ask the next server.
    TryNext,
    /// The body is the PDF: save it.
    SavePdf { pdf: Vec<u8> },
    /// Compilation is over with this result.
    Finish { result: CompileResult },
}

/// The first bytes of every PDF file, `%PDF`.
pub open spec fn pdf_magic() -> Seq<u8> {
    seq![37u8, 80, 68, 70]
}

/// A successful reply that carries a PDF.
pub open spec fn is_pdf_reply(code: u16, body: Seq<u8>) -> bool {
    200 <= code < 300 && body.len() > 100 && has_prefix(body, pdf_magic())
}

/// A status that means the server is temporarily unavailable.
pub open spec fn is_gateway_status(code: u16) -> bool {
    code == 502 || code == 503 || code == 504
}

/// A reply text that is an HTML error page.
pub open spec fn is_html_page(text: Seq<char>) -> bool {
    has_infix(text, "<html"@) || has_infix(text, "<HTML"@)
}

/// Decides the fallback over compile servers for one online compilation.
pub struct OnlineCompile {
    next: usize,
    last_error: String,
    last_log: String,
}

impl OnlineCompile {
    /// How many servers were asked.
    pub closed spec fn asked(&self) -> nat {
        self.next as nat
    }

    /// The error noted last.
    pub closed spec fn last_error(&self) -> Seq<char> {
        self.last_error@
    }

    /// The log noted last.
    pub closed spec fn last_log(&self) -> Seq<char> {
        self.last_log@
    }

    /// Internal consistency.
    pub closed spec fn wf(&self) -> bool {
        self.next <= 2
    }

    /// Nothing asked yet.
    pub fn new() -> (c: OnlineCompile)
        ensures
            c.wf(),
            c.asked() == 0,
            c.last_error().len() == 0,
            c.last_log().len() == 0,
    {
        OnlineCompile { next: 0, last_error: String::new(), last_log: String::new() }
    }

    fn host(i: usize) -> (h: &'static str)
        requires
            i < 2,
        ensures
            h@ == online_hosts()[i as int],
    {
        if i == 0 {
            "https://latexonline.cc"
        } else {
            "https://texlive2020.latexonline.cc"
        }
    }

    /// The URL of the next server to ask, or `None` when all were asked.
    pub fn next_url(&self) -> (u: Option<String>)
        requires
            self.wf(),
        ensures
            match u {
                None => self.asked() == online_hosts().len(),
                Some(url) => self.asked() < online_hosts().len() && url@ == online_hosts()[self.asked() as int]
                    + COMPILE_PATH@,
            },
    {
        if self.next < 2 {
            Some(concat(Self::host(self.next), COMPILE_PATH))
        } else {
            None
        }
    }

    /// Takes the reply of the current server and decides the next step.
    pub fn record(&mut self, reply: OnlineReply) -> (step: OnlineStep)
        requires
            old(self).wf(),
            old(self).asked() < online_hosts().len(),
        ensures
            final(self).wf(),
            final(self).asked() == old(self).asked() + 1,
            ({
                let host = online_hosts()[old(self).asked() as int];
                match reply {
                    OnlineReply::ConnectionFailed { error } => step is TryNext
                        && final(self).last_error() == "Connection to "@ + host + " failed: "@
                        + error@ && final(self).last_log().len() == 0,
                    OnlineReply::ReadFailed { error } => step is TryNext && final(self).last_error()
                        == "Failed reading response from "@ + host + ": "@ + error@
                        && final(self).last_log() == old(self).last_log(),
                    OnlineReply::Received { code, status, body } => {
                        let text = utf8_lossy(body@);
                        if is_pdf_reply(code, body@) {
                            step matches OnlineStep::SavePdf { pdf } && pdf@ == body@
                        } else if is_gateway_status(code) {
                            step is TryNext && final(self).last_error() == "Server "@ + host
                                + " is temporarily unavailable (HTTP "@ + status@
                                + "). Trying next server..."@ && final(self).last_log() == text
                        } else if is_html_page(text) {
                            step is TryNext && final(self).last_error() == "Server "@ + host
                                + " returned an error page (HTTP "@ + status@
                                + "). The service may be down."@ && final(self).last_log() == text
                        } else {
                            step matches OnlineStep::Finish { result } && result@ == failure(
                                text,
                                "Online compilation failed (HTTP "@ + status@
                                    + "). The LaTeX may have errors - check the log. Or try switching to Offline mode in Settings."@,
                            )
                        }
                    },
                }
            }),
    {
        let host = Self::host(self.next);
        self.next = self.next + 1;
        match reply {
            OnlineReply::ConnectionFailed { error } => {
                self.last_error = concat3("Connection to ", host, " failed: ");
                self.last_error = concat(self.last_error.as_str(), error.as_str());
                self.last_log = String::new();
                OnlineStep::TryNext
            },
            OnlineReply::ReadFailed { error } => {
                self.last_error = concat3("Failed reading response from ", host, ": ");
                self.last_error = concat(self.last_error.as_str(), error.as_str());
                OnlineStep::TryNext
            },
            OnlineReply::Received { code, status, body } => {
                let magic: Vec<u8> = vec![37u8, 80, 68, 70];
                let success = 200 <= code && code < 300;
                let looks_like_pdf = body.len() > 100 && body[0] == magic[0] && body[1] == magic[1]
                    && body[2] == magic[2] && body[3] == magic[3];
                proof {
                    if body@.len() >= 4 {
                        if body@[0] == magic@[0] && body@[1] == magic@[1] && body@[2] == magic@[2]
                            && body@[3] == magic@[3] {
                            assert(body@.subrange(0, 4) =~= pdf_magic());
                        } else {
                            assert(body@.subrange(0, 4) != pdf_magic()) by {
                                if body@.subrange(0, 4) == pdf_magic() {
                                    assert(body@[0] == body@.subrange(0, 4)[0]);
                                    assert(body@[1] == body@.subrange(0, 4)[1]);
                                    assert(body@[2] == body@.subrange(0, 4)[2]);
                                    assert(body@[3] == body@.subrange(0, 4)[3]);
                                }
                            }
                        }
                    }
                }
                if success && looks_like_pdf {
                    return OnlineStep::SavePdf { pdf: body };
                }
                let text = lossy_text(body.as_slice());
                if code == 502 || code == 503 || code == 504 {
                    let a = concat3("Server ", host, " is temporarily unavailable (HTTP ");
                    let b = concat3(a.as_str(), status.as_str(), "). Trying next server...");
                    self.last_error = b;
                    self.last_log = text;
                    return OnlineStep::TryNext;
                }
                if text_contains(text.as_str(), "<html") || text_contains(text.as_str(), "<HTML") {
                    let a = concat3("Server ", host, " returned an error page (HTTP ");
                    let b = concat3(a.as_str(), status.as_str(), "). The service may be down.");
                    self.last_error = b;
                    self.last_log = text;
                    return OnlineStep::TryNext;
                }
                let e = concat3(
                    "Online compilation failed (HTTP ",
                    status.as_str(),
                    "). The LaTeX may have errors - check the log. Or try switching to Offline mode in Settings.",
                );
                OnlineStep::Finish { result: failed(text, e) }
            },
        }
    }

    /// The result when no server produced a PDF.
    pub fn exhausted_result(&self) -> (r: CompileResult)
        ensures
            r@ == failure(
                self.last_log(),
                "All online LaTeX servers are currently unavailable. "@ + self.last_error()
                    + ". Try switching to Offline (TinyTeX) mode in Settings, or try again later."@,
            ),
    {
        let e = concat3(
            "All online LaTeX servers are currently unavailable. ",
            self.last_error.as_str(),
            ". Try switching to Offline (TinyTeX) mode in Settings, or try again later.",
        );
        failed(self.last_log.clone(), e)
    }
}

/// The result when no HTTP client could be built.
pub fn client_failure(error: &str) -> (r: CompileResult)
    ensures
        r@ == failure(Seq::empty(), "Failed to create HTTP client: "@ + error@),
{
    failed(String::new(), concat("Failed to create HTTP client: ", error))
}

/// How saving a downloaded PDF ended.
pub enum SaveOutcome {
    /// The output folder could not be created.
    FolderFailed { error: String },
    /// The PDF could not be written.
    WriteFailed { error: String },
    /// The PDF was written at `path`.
    Saved { path: String },
}

/// The result of an online compilation once its PDF was saved (or not).
pub fn online_save_result(outcome: SaveOutcome) -> (r: CompileResult)
    ensures
        match outcome {
            SaveOutcome::FolderFailed { error } => r@ == failure(
                Seq::empty(),
                "Failed to create output folder: "@ + error@,
            ),
            SaveOutcome::WriteFailed { error } => r@ == failure(
                Seq::empty(),
                "Failed to write PDF: "@ + error@,
            ),
            SaveOutcome::Saved { path } => r@ == delivered(
                path@,
                "Compiled online via latexonline.cc (pdflatex)"@,
            ),
        },
{
    match outcome {
        SaveOutcome::FolderFailed { error } => failed(
            String::new(),
            concat("Failed to create output folder: ", error.as_str()),
        ),
        SaveOutcome::WriteFailed { error } => failed(
            String::new(),
            concat("Failed to write PDF: ", error.as_str()),
        ),
        SaveOutcome::Saved { path } => succeeded(
            path,
            String::from_str("Compiled online via latexonline.cc (pdflatex)"),
        ),
    }
}

/// The stages of a local pdfLaTeX compilation.
pub enum OfflineStage {
    /// Looking for the pdflatex program.
    Locate,
    /// Creating a temporary directory.
    CreateTempDir,
    /// Writing `resume.tex` there.
    WriteSource,
    /// Running pdflatex, first or second pass.
    RunPass { second: bool },
    /// Reading `resume.log`.
    ReadLog,
    /// Checking that `resume.pdf` exists.
    CheckPdf,
    /// Creating the output folder.
    CreateOutputFolder,
    /// Replacing `Resume.pdf` in the output folder by the new PDF.
    CopyPdf,
    /// Finished with a result.
    Finished,
}

/// How a stage went.
pub enum OfflineEvent {
    /// The stage succeeded.
    Done,
    /// The stage failed with this error text.
    Failed { error: String },
    /// A pdflatex pass ran and printed this.
    Output { stdout: String, stderr: String },
    /// The LaTeX log, when it exists and could be read.
    LogText { text: Option<String> },
    /// Whether the program or file looked for is there.
    Present { found: bool },
    /// The PDF now lies at this path.
    Copied { path: String },
}

/// `event` is a possible outcome of `stage`.
pub open spec fn fits(stage: OfflineStage, event: OfflineEvent) -> bool {
    match stage {
        OfflineStage::Locate => event is Present,
        OfflineStage::CreateTempDir => event is Done || event is Failed,
        OfflineStage::WriteSource => event is Done || event is Failed,
        OfflineStage::RunPass { .. } => event is Output || event is Failed,
        OfflineStage::ReadLog => event is LogText,
        OfflineStage::CheckPdf => event is Present,
        OfflineStage::CreateOutputFolder => event is Done || event is Failed,
        OfflineStage::CopyPdf => event is Copied || event is Failed,
        OfflineStage::Finished => false,
    }
}

/// The log text that a pdflatex pass adds.
pub open spec fn pass_log(second: bool, stdout: Seq<char>, stderr: Seq<char>) -> Seq<char> {
    (if second {
        "--- Pass 2 ---\n"@
    } else {
        "--- Pass 1 ---\n"@
    }) + stdout + (if stderr.len() == 0 {
        Seq::empty()
    } else {
        stderr
    })
}

/// The stage after `stage` when `event` does not end the compilation.
pub open spec fn following(stage: OfflineStage) -> OfflineStage {
    match stage {
        OfflineStage::Locate => OfflineStage::CreateTempDir,
        OfflineStage::CreateTempDir => OfflineStage::WriteSource,
        OfflineStage::WriteSource => OfflineStage::RunPass { second: false },
        OfflineStage::RunPass { second } => if second {
            OfflineStage::ReadLog
        } else {
            OfflineStage::RunPass { second: true }
        },
        OfflineStage::ReadLog => OfflineStage::CheckPdf,
        OfflineStage::CheckPdf => OfflineStage::CreateOutputFolder,
        OfflineStage::CreateOutputFolder => OfflineStage::CopyPdf,
        OfflineStage::CopyPdf => OfflineStage::Finished,
        OfflineStage::Finished => OfflineStage::Finished,
    }
}

/// The result with which `event` ends the compilation at `stage` with the
/// log so far, or `None` when the compilation goes on.
pub open spec fn offline_verdict(stage: OfflineStage, log: Seq<char>, event: OfflineEvent) -> Option<
    CompileView,
> {
    match (stage, event) {
        (OfflineStage::Locate, OfflineEvent::Present { found }) => if found {
            None
        } else {
            Some(
                failure(
                    Seq::empty(),
                    "pdfLaTeX not found. Please install TinyTeX in Settings first."@,
                ),
            )
        },
        (OfflineStage::CreateTempDir, OfflineEvent::Failed { error }) => Some(
            failure(Seq::empty(), "Failed to create temp dir: "@ + error@),
        ),
        (OfflineStage::WriteSource, OfflineEvent::Failed { error }) => Some(
            failure(Seq::empty(), "Failed to write .tex file: "@ + error@),
        ),
        (OfflineStage::RunPass { .. }, OfflineEvent::Failed { error }) => Some(
            failure(log, "pdflatex execution error: "@ + error@),
        ),
        (OfflineStage::CheckPdf, OfflineEvent::Present { found }) => if found {
            None
        } else {
            Some(failure(log, "PDF was not generated. Check the log for LaTeX errors."@))
        },
        (OfflineStage::CreateOutputFolder, OfflineEvent::Failed { error }) => Some(
            failure(log, "Failed to create output folder: "@ + error@),
        ),
        (OfflineStage::CopyPdf, OfflineEvent::Failed { error }) => Some(
            failure(log, "Failed to copy PDF: "@ + error@),
        ),
        (OfflineStage::CopyPdf, OfflineEvent::Copied { path }) => Some(delivered(path@, log)),
        _ => None,
    }
}

/// The log after `event` at `stage`.
pub open spec fn offline_log(stage: OfflineStage, log: Seq<char>, event: OfflineEvent) -> Seq<char> {
    match (stage, event) {
        (OfflineStage::RunPass { second }, OfflineEvent::Output { stdout, stderr }) => log
            + pass_log(second, stdout@, stderr@),
        (OfflineStage::ReadLog, OfflineEvent::LogText { text }) => match text {
            Some(t) => log + "\n--- LaTeX Log ---\n"@ + t@,
            None => log,
        },
        _ => log,
    }
}

/// What the caller does next for a local compilation.
pub enum OfflineAction {
    /// Look for pdflatex and report [`OfflineEvent::Present`].
    LocateCompiler,
    /// Create a temporary directory.
    CreateTempDir,
    /// Write `source` to `resume.tex` in the temporary directory.
    WriteSource { source: String },
    /// Run `pdflatex -interaction=nonstopmode resume.tex` there.
    RunPdflatex,
    /// Read `resume.log` if it exists.
    ReadLog,
    /// Check whether `resume.pdf` exists.
    CheckPdf,
    /// Create `folder` with its parents.
    CreateOutputFolder { folder: String },
    /// Remove an existing `Resume.pdf` in the output folder (ignoring a
    /// failure) and copy the new PDF there.
    CopyPdf,
    /// The compilation is over.
    Finish,
}

/// Decides the steps of one local compilation of `source` into `folder`.
pub struct OfflineCompile {
    source: String,
    folder: String,
    stage: OfflineStage,
    log: String,
    result: Option<CompileResult>,
}

impl OfflineCompile {
    /// The current stage.
    pub closed spec fn stage(&self) -> OfflineStage {
        self.stage
    }

    /// The log collected so far.
    pub closed spec fn log(&self) -> Seq<char> {
        self.log@
    }

    /// The result, once finished.
    pub closed spec fn outcome(&self) -> Option<CompileView> {
        match self.result {
            Some(r) => Some(r@),
            None => None,
        }
    }

    /// The source being compiled.
    pub closed spec fn source(&self) -> Seq<char> {
        self.source@
    }

    /// The output folder.
    pub closed spec fn folder(&self) -> Seq<char> {
        self.folder@
    }

    /// Internal consistency.
    pub closed spec fn wf(&self) -> bool {
        (self.stage is Finished) == (self.result is Some)
    }

    /// A well-formed compilation has an outcome exactly when it is
    /// finished: an unfinished one has none yet.
    pub proof fn lemma_outcome_only_when_finished(&self)
        requires
            self.wf(),
        ensures
            self.outcome() is Some <==> self.stage() is Finished,
    {
    }

    /// A compilation about to start.
    pub fn new(source: &str, folder: &str) -> (c: OfflineCompile)
        ensures
            c.wf(),
            c.stage() is Locate,
            c.log().len() == 0,
            c.source() == source@,
            c.folder() == folder@,
    {
        OfflineCompile {
            source: String::from_str(source),
            folder: String::from_str(folder),
            stage: OfflineStage::Locate,
            log: String::new(),
            result: None,
        }
    }

    /// What to do at the current stage.
    pub fn next_action(&self) -> (a: OfflineAction)
        requires
            self.wf(),
        ensures
            match self.stage() {
                OfflineStage::Locate => a is LocateCompiler,
                OfflineStage::CreateTempDir => a is CreateTempDir,
                OfflineStage::WriteSource => a matches OfflineAction::WriteSource { source }
                    && source@ == self.source(),
                OfflineStage::RunPass { .. } => a is RunPdflatex,
                OfflineStage::ReadLog => a is ReadLog,
                OfflineStage::CheckPdf => a is CheckPdf,
                OfflineStage::CreateOutputFolder => a matches OfflineAction::CreateOutputFolder {
                    folder,
                } && folder@ == self.folder(),
                OfflineStage::CopyPdf => a is CopyPdf,
                OfflineStage::Finished => a is Finish,
            },
    {
        match self.stage {
            OfflineStage::Locate => OfflineAction::LocateCompiler,
            OfflineStage::CreateTempDir => OfflineAction::CreateTempDir,
            OfflineStage::WriteSource => OfflineAction::WriteSource { source: self.source.clone() },
            OfflineStage::RunPass { .. } => OfflineAction::RunPdflatex,
            OfflineStage::ReadLog => OfflineAction::ReadLog,
            OfflineStage::CheckPdf => OfflineAction::CheckPdf,
            OfflineStage::CreateOutputFolder => OfflineAction::CreateOutputFolder {
                folder: self.folder.clone(),
            },
            OfflineStage::CopyPdf => OfflineAction::CopyPdf,
            OfflineStage::Finished => OfflineAction::Finish,
        }
    }

    /// Takes how the current stage went.
    pub fn record(&mut self, event: OfflineEvent)
        requires
            old(self).wf(),
            fits(old(self).stage(), event),
        ensures
            final(self).wf(),
            final(self).source() == old(self).source(),
            final(self).folder() == old(self).folder(),
            final(self).log() == offline_log(old(self).stage(), old(self).log(), event),
            match offline_verdict(old(self).stage(), old(self).log(), event) {
                Some(v) => final(self).stage() is Finished && final(self).outcome() == Some(v),
                None => final(self).stage() == following(old(self).stage()),
            },
    {
        match (&self.stage, event) {
            (OfflineStage::Locate, OfflineEvent::Present { found }) => {
                if found {
                    self.stage = OfflineStage::CreateTempDir;
                } else {
                    self.finish(
                        failed(
                            String::new(),
                            String::from_str(
                                "pdfLaTeX not found. Please install TinyTeX in Settings first.",
                            ),
                        ),
                    );
                }
            },
            (OfflineStage::CreateTempDir, OfflineEvent::Failed { error }) => {
                self.finish(
                    failed(String::new(), concat("Failed to create temp dir: ", error.as_str())),
                );
            },
            (OfflineStage::CreateTempDir, _) => {
                self.stage = OfflineStage::WriteSource;
            },
            (OfflineStage::WriteSource, OfflineEvent::Failed { error }) => {
                self.finish(
                    failed(String::new(), concat("Failed to write .tex file: ", error.as_str())),
                );
            },
            (OfflineStage::WriteSource, _) => {
                self.stage = OfflineStage::RunPass { second: false };
            },
            (OfflineStage::RunPass { second }, OfflineEvent::Output { stdout, stderr }) => {
                let second = *second;
                let head = if second {
                    "--- Pass 2 ---\n"
                } else {
                    "--- Pass 1 ---\n"
                };
                let mut log = concat3(self.log.as_str(), head, stdout.as_str());
                if !stderr.as_str().is_empty() {
                    log = concat(log.as_str(), stderr.as_str());
                }
                self.log = log;
                self.stage = if second {
                    OfflineStage::ReadLog
                } else {
                    OfflineStage::RunPass { second: true }
                };
            },
            (OfflineStage::RunPass { .. }, OfflineEvent::Failed { error }) => {
                let e = concat("pdflatex execution error: ", error.as_str());
                let log = self.log.clone();
                self.finish(failed(log, e));
            },
            (OfflineStage::ReadLog, OfflineEvent::LogText { text }) => {
                if let Some(t) = text {
                    self.log = concat3(self.log.as_str(), "\n--- LaTeX Log ---\n", t.as_str());
                }
                self.stage = OfflineStage::CheckPdf;
            },
            (OfflineStage::CheckPdf, OfflineEvent::Present { found }) => {
                if found {
                    self.stage = OfflineStage::CreateOutputFolder;
                } else {
                    let log = self.log.clone();
                    self.finish(
                        failed(
                            log,
                            String::from_str(
                                "PDF was not generated. Check the log for LaTeX errors.",
                            ),
                        ),
                    );
                }
            },
            (OfflineStage::CreateOutputFolder, OfflineEvent::Failed { error }) => {
                let e = concat("Failed to create output folder: ", error.as_str());
                let log = self.log.clone();
                self.finish(failed(log, e));
            },
            (OfflineStage::CreateOutputFolder, _) => {
                self.stage = OfflineStage::CopyPdf;
            },
            (OfflineStage::CopyPdf, OfflineEvent::Failed { error }) => {
                let e = concat("Failed to copy PDF: ", error.as_str());
                let log = self.log.clone();
                self.finish(failed(log, e));
            },
            (OfflineStage::CopyPdf, OfflineEvent::Copied { path }) => {
                let log = self.log.clone();
                self.finish(succeeded(path, log));
            },
            _ => {},
        }
    }

    fn finish(&mut self, r: CompileResult)
        ensures
            final(self).stage() is Finished,
            final(self).outcome() == Some(r@),
            final(self).log() == old(self).log(),
            final(self).source() == old(self).source(),
            final(self).folder() == old(self).folder(),
            final(self).wf(),
    {
        self.stage = OfflineStage::Finished;
        self.result = Some(r);
    }

    /// The result of a finished compilation.
    pub fn into_result(self) -> (r: CompileResult)
        requires
            self.wf(),
            self.stage() is Finished,
        ensures
            self.outcome() == Some(r@),
    {
        self.result.unwrap()
    }
}

/// How many stages are left before a local compilation is over.
pub open spec fn stages_left(stage: OfflineStage) -> nat {
    match stage {
        OfflineStage::Locate => 9,
        OfflineStage::CreateTempDir => 8,
        OfflineStage::WriteSource => 7,
        OfflineStage::RunPass { second } => if second {
            5
        } else {
            6
        },
        OfflineStage::ReadLog => 4,
        OfflineStage::CheckPdf => 3,
        OfflineStage::CreateOutputFolder => 2,
        OfflineStage::CopyPdf => 1,
        OfflineStage::Finished => 0,
    }
}

/// Every step of a local compilation either ends it or moves it one stage
/// closer to the end, so a compilation ends after at most nine steps.
pub proof fn lemma_offline_compile_ends(stage: OfflineStage, log: Seq<char>, event: OfflineEvent)
    requires
        fits(stage, event),
    ensures
        offline_verdict(stage, log, event) is None ==> stages_left(following(stage)) + 1
            == stages_left(stage),
        stages_left(stage) <= 9,
{
}

/// What is uploaded to a compile server for `latex_source`: the archive of
/// one file, `resume.tex`, holding the source with the unsupported packages
/// removed; nothing else. `None` when that source is too large for the
/// archive's size field.
pub fn online_upload(latex_source: &str) -> (tar: Option<Vec<u8>>)
    ensures
        match tar {
            Some(t) => t@ == crate::tarball::tar_archive(
                vstd::utf8::encode_utf8("resume.tex"@),
                vstd::utf8::encode_utf8(strip_unsupported(latex_source@)),
            ),
            None => vstd::utf8::encode_utf8(strip_unsupported(latex_source@)).len()
                >= crate::tarball::MAX_TAR_CONTENT,
        },
{
    let cleaned = strip_unsupported_packages(latex_source);
    let bytes = cleaned.as_str().as_bytes();
    if bytes.len() as u64 >= crate::tarball::MAX_TAR_CONTENT {
        return None;
    }
    Some(crate::tarball::create_tarball("resume.tex", bytes))
}

} // verus!
