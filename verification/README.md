# openai_rust_sdk

A client library for the OpenAI API whose core is written in Verus and proved
against its contracts.

- `src/` is the verified library: connection settings and request headers,
  endpoint paths, request and response models with their builders and validation
  rules (files, images, assistants, embeddings, fine-tuning, audio, admin,
  containers, conversations, evals, GPT-5 settings, videos), the classification
  of models and the filters and groupings over model lists, a JSON value type and
  a JSON Schema builder, function definitions, and the decisions made around each
  HTTP exchange: how long to wait for a vector store, what its usage statistics
  are, whether a 404 means "absent", how a function-calling conversation goes on.
- `app/` is ordinary Rust around it: the HTTP transport (reqwest), serde copies of
  the library's types, the file system and environment, and the request and
  response types that hold floating-point values.
- `tests/` exercises the library from outside.
