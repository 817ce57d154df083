# aisdk

Request building for large-language-model providers, verified with Verus.

- `src/sdk.rs` — the provider-independent model: messages, tools, request
  options, token usage, errors.
- `src/json.rs` — JSON values as the conversions see them (a top-level
  object held key by key, deeper values as JSON text), with a map model.
- `src/anthropic/` — Anthropic Messages API types and the conversions of
  options and usage.
- `src/chat_completions/` — OpenAI Chat Completions types, conversions, and
  the client's decisions (path, method, headers, stream events).
- `src/laws.rs` — properties of the conversions, proved over their models.
- `app/` — the unverified edge: `serde_json` values, request bodies,
  `reqwest` headers and `reqwest_eventsource` events.

Sampling values travel in hundredths (70 stands for 0.7) and penalties as
`f32` bit patterns, so that the verified library holds no floating point.
