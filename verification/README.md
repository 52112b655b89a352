# lfp

`lfp` pipes a command's output through a language model and prints only
what the prompt asks to keep. If the model cannot answer, the input is
printed unchanged (fail-open); the raw input is backed up and each
run is recorded in `runs.jsonl`.

Layout:

- `src/` — the library, verified with Verus:
  - `cli.rs`: settings from flags, environment variables and defaults;
  - `decimal.rs`: decimal parsing and rendering of unsigned integers;
  - `llm.rs`: the request sent to Ollama's `/api/generate` and the naming
    of failures;
  - `runlog.rs`: the run record;
  - `pipeline.rs`: whether to ask the model, and what to print, keep and
    record afterwards;
  - `tee.rs`: a reader that backs up what it reads.
- `app/` — the program: argument and environment reading, standard input
  and output, files, HTTP and JSON.
- `tests/` — tests of the library.
