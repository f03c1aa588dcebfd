# ai_token_prelude

The decision logic of the `ai-token-prelude` gateway plugin, verified with
Verus. For requests that ask for it, the plugin estimates the number of tokens
of a chat-completion request from the UTF-8 size of its messages' text, passes
the estimate upstream in the `x-ks-token-prelude` header, asks a pilot service
for a precise count when the estimate falls between two thresholds, and
reports the count on the response.

- `src/text.rs`: exact comparison, substring search, splitting at a character.
- `src/headers.rs`: the host's header multimap and its first-value lookup.
- `src/json.rs`, `src/body.rs`: the JSON document model, the parse of bodies
  and what the plugin reads from them (model, message text).
- `src/table.rs`: name-keyed tables (sets, per-model numbers, request context).
- `src/config.rs`: configuration types, defaults, rule values and model lists.
- `src/prelude.rs`: the per-request decisions of the header, body and
  response phases.
- `src/pilot.rs`: the pilot call, its reply, and the request-header rewrite.
- `src/debug_text.rs`: the logged text of an optional body.
- `src/laws.rs`: properties that span several operations.
- `app/`: the proxy-wasm shell (configuration parsing, host calls, the
  floating-point estimate and thresholds).
