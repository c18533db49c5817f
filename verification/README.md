# arcan

The agent harness of the arcan runtime as a Verus-verified library: workspace
file-system guardrails and tools, hashline (BLAKE3-tagged) file edits, the
shell sandbox policy, the mapping between agent events and the Lago event
journal with its projections (memory, state, skills, observations), policy
gating of tool calls, retention tiers, memory tools, model-provider request and
response shaping, OAuth/PKCE steps, and sandbox providers' command lines.

Layout:

- `src/` — the verified library. Each module states its behaviour in
  `requires`/`ensures` over spec functions and views; calls into outside
  crates (serde_json, regex, glob, blake3, sha2, base64, url, chrono, rand,
  lago-policy, std) go through small trusted wrappers whose contracts name or
  state their results.
- `tests/` — tests run against the compiled library.
- `app/` — the I/O around the library: processes, files, HTTP, sockets, the
  MCP client, SSE framing through `lago-api`, YAML front matter.

Verify with Verus on `src/lib.rs`; the tests and `app/` build as ordinary Rust.
