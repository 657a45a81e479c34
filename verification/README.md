# gemini_proxy

An OpenAI-compatible HTTP gateway (`/v1/models`, `/v1/chat/completions`,
`/health`) that answers each chat request by running the `gemini`
command-line client once, with `--output-format stream-json`, and relaying the
assistant text it prints, either as server-sent events or as one response.

- `src/` is the verified library (Verus):
  - `text.rs`: Unicode white space, trimming, text equality;
  - `models.rs`: the chat API records and the constructors of answers;
  - `engine.rs`: the prompt made of a chat, model aliases, the client's
    arguments and environment, reading one stream-json line, and the
    collecting and streaming state machines;
  - `server.rs`: the model list, refusal of tool requests, error answers,
    the events that close a stream, port and version-flag handling.
- `app/` is the program around it: axum routes, the tokio process and
  channel plumbing, serde forms of the records, logging.
- `tests/` runs the library on concrete values.
