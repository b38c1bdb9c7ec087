# tailor_resume

The logic of a desktop assistant that tailors a LaTeX résumé to a job
description with the Gemini API and compiles it to `Resume.pdf`, written in
Verus with its contracts proved.

- `src/` — the verified library: text helpers (`text`), LaTeX clean-up and
  package stripping (`latex`, with regex erasure in `pattern`), the upload
  archive (`tarball`), the Gemini request rules and model fallback
  (`gemini`), the compile decisions for pdfLaTeX and the online servers
  (`compile`), profile and settings (`profile`), templates (`templates`),
  history (`history`) and the command decisions (`session`).
- `app/` — the files, keychain, network and process work around it, and the
  serializable copies of the library's types.
- `tests/` — tests of the library on concrete values.
