# aegisforge

The verified core of AegisForge, a zero-trust security research engine that
connects a language model (over the Model Context Protocol) to a sandboxed
backend. Every piece of external data passes a sanitizer before it reaches
the model, and every scan request passes an address and port policy before
anything touches the network.

Layout:

- `src/` — the library, verified with Verus:
  - `sanitizer.rs`: length cap, control-character stripping, injection-phrase
    blocklist, `<tool_output_data>` envelope, and their laws;
  - `recon_tool.rs`: the `scan_ports` MCP tool's decisions;
  - `recon.rs`, `ip.rs`: the desktop scan policy, port results, and the
    safe binary executor's decisions;
  - `state.rs`: scan counters; `sandbox.rs`: container command line and
    runtime choice; `error.rs`, `tool_error.rs`: error types;
  - `text.rs`: string helpers (decimal rendering, trimming, UTF-8 decoding).
- `tests/` — tests of the library on concrete values.
- `app/` — the MCP server over stdio (`rmcp`, `tokio`) and the desktop
  command bodies: address parsing, TCP probes, process runs, JSON.
