# github_export

A client for exporting GitHub issues, pull requests, security alerts and
workflow runs, with multi-account sign-in, per-account lists of tracked
repositories, and CSV and PDF reports.

- `src/` is the library, verified with Verus: the session and account rules,
  the device-flow decisions, the request parameters and the records made from
  GitHub's replies, the tracked-repository store, the CSV document and the PDF
  page layout. Calls into `chrono`, `csv`, `serde_json` and `uuid` stand behind
  small trusted wrappers whose contracts are stated in their doc comments.
- `tests/` runs the library on concrete values.
- `app/` is the command-line program around it: HTTP with `octocrab` and
  `reqwest`, the OS keyring, files on disk, and drawing the laid-out report
  with `printpdf`.
