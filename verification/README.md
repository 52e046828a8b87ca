# klasp

klasp blocks AI coding agents on the same quality gates people hit at
`git commit`: the agent's `git commit` / `git push` tool call runs the checks
declared in `klasp.toml`, and a failing check denies the call with a
structured report the agent can act on.

## Layout

- `src/` — the library, verified with Verus:
  - `gate.rs`: which git event a tool call performs, which checks fire, how
    staged files group by their nearest `klasp.toml`, the fail-open notices,
    and where the report goes;
  - `gate_run.rs`: one `klasp gate` run as a step function from what the
    last piece of outside work gave to the next piece of work, with its
    fail-open and blocking laws;
  - `model.rs`: verdicts, findings, check configuration, and how verdicts combine;
  - `sources/`: the check recipes (shell, pre-commit, fallow, pytest, cargo,
    plugins) — the command each one runs and how its output becomes a verdict;
  - `output/`: the terminal, JSON, SARIF and JUnit reports;
  - `adopt/`: detecting existing Husky, Lefthook and lint-staged gates;
  - `cmd/`: the decisions and messages of `doctor`, `install`, `uninstall`,
    `plugins`, `setup` and the transcript replay;
  - `json.rs`, `xml.rs`, `text.rs`: documents and strings, with serde_json and
    quick-xml behind small trusted wrappers.
- `app/` — the `klasp` binary: command-line parsing, processes, files,
  environment, and the loop that feeds the library's decisions.
- `tests/` — tests of the library.

## Not supported in this build

- User-defined `[[trigger]]` blocks in `klasp.toml` are not read: `klasp
  gate` fires only on the built-in `git commit` / `git push` classification.
- `klasp install` and `klasp uninstall` always fail with "agent surface not
  available": the per-agent hook integrations are not part of this build.
- `klasp doctor` reports every agent as not detected, for the same reason.
- Every config uses the `any_fail` policy.
