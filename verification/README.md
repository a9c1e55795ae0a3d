# cosyn

A governance proxy for language-model prompts. The library in `src/` holds
the verified logic:

- `text` — characters of strings, Unicode character classes, splitting,
  trimming, lowercasing and substring search;
- `dcc` — the input gates (subject binding, evidence, ambiguity), their word
  lists, and the conversation-context utilities;
- `input_gate::integrity` — whether a prompt stands on its own;
- `orchestrator` — the input gates in their order;
- `coaching` — the coaching request after a block and its outcome;
- `config`, `authority_loader`, `provider` — the configuration, the
  authority checks and artifact choice, the provider choice, message
  preparation, and the turning of each provider's reply into an answer or a
  refusal;
- `proxy::handlers` — the chat endpoint's decisions: the streaming refusal,
  the governed prompt and its earlier conversation, the step after the
  pipeline (reply, or coach first), the fields of released and blocked
  replies, and the reply envelope (`proxy::types`);
- `laws` — properties that span the gates and the block reasons.

`app/` is the program around it: command line, TOML configuration, file
reading, the HTTP providers and the axum server.
