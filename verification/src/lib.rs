//! Core logic of a résumé-tailoring assistant: prompt assembly, model
//! fallback decisions, LaTeX clean-up, archive framing and history rules.

pub mod text;
pub mod tarball;
pub mod pattern;
pub mod latex;
pub mod profile;
pub mod templates;
pub mod gemini;
pub mod compile;
pub mod history;
pub mod session;
pub mod tinytex;
