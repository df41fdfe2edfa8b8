# fae

A code search tool's core, written in Verus: query modes, parsing of
search tool output, result bookkeeping, symbol index queues, fuzzy and
pattern search over lines and paths, an LRU cache of file analyses, file
watching decisions, JSON-RPC payloads and framing, and the formatting of
results for terminals and pipes.

Layout:

- `src/` is the verified library. Each module states its behaviour in
  `requires`/`ensures` over spec functions and views; laws that relate
  several operations are public proof functions (their names start with
  `lemma_`). Calls into `fuzzy-matcher`, `glob`, `regex`, std's `Path`,
  string case mapping and hashing go through small trusted wrappers whose
  doc comments say what is assumed of them.
- `app/` is the unverified edge: stdio framing, terminal detection,
  directory walking with `ignore`, file reading, `notify` watchers,
  running external search commands, and conversion to and from
  `serde_json` values. It hands plain values to the library and performs
  the actions the library decides on.
- `tests/` runs the library on concrete inputs.
