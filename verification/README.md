# signaldock_runtime

The SignalDock agent runtime: it receives messages addressed to an agent
(from a server-sent-event stream, with polling as fallback) and delivers
them to the agent's platform (an OpenClaw gateway, a webhook, a directory
of JSON files, or standard output).

- `src/` is the library, verified with Verus: message intake and
  de-duplication (`receiver`, `seen`), the event-stream line protocol
  (`sse`), provider selection and delivery verdicts (`providers`), the
  health report (`health`), the payloads handed to platforms (`payload`),
  API endpoints (`api`), JSON decoding through
  `serde_json` (`wire`), and the properties that span these (`laws`).
- `app/` is the program around it: command-line parsing, HTTP, files,
  the receive loops and the health server.
- `tests/` exercises the library on concrete inputs.
