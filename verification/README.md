# cim_bridge

A bridge between AI providers (a local Ollama server by default) and NATS. Clients send
commands (`bridge.command.*`) and queries (`bridge.query.*`); the bridge calls the active
provider and publishes what happens as events on `bridge.event.*`.

The decisions of the bridge are a library verified with Verus (`src/`):

- `types`, `error`: the protocol's messages and the bridge's errors with their descriptions.
- `services::bridge`: the provider registry, the active provider, per-provider metrics,
  event subjects and envelopes, and the answers to queries (`answer_query`).
- `services::command`: a state machine for each command (`begin`, `advance`).
- `services::stream`: the forwarding of streamed answers (`StreamForwarder`).
- `providers::ollama`: what is sent to Ollama and how its answers, model lists, health
  probes and streamed lines are read (`StreamDecoder`).
- `client`: the client's side: command envelopes, and what each answering event means.
- `text`, `interop`: character helpers, and the thin calls into outside crates.

`app/` is the program around it: NATS, HTTP, serde, logging and the command line. Run it
with `cim-bridge [--nats-url URL] [--log-level LEVEL]` to serve, or
`cim-bridge [--nats-url URL] <query|stream|list-providers|list-models|health-check>` to talk to a
running bridge.
