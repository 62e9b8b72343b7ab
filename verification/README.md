# nadzu

The logic of the nadzu backend, verified with Verus: Malee, a shopping
assistant driven by a language model (cart, checkout, tool calls, agent
state machine, prompt context, connector replies, model streams), the
yt-dlp download manager's rules (command line, job ids and retention,
output capture and redaction), and the GitHub contribution calendar.

- `src/` is the verified library. Every function there carries a contract;
  the `law_*` proof functions state properties that span several calls.
- `tests/` exercises the library on concrete values.
- `app/` is the unverified shell around it: the HTTP clients, the async agent
  runner, process management, caches with interior mutability, telemetry,
  and serde copies of the library's types.
