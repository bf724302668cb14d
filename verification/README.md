# supertonic_openai

The core of an OpenAI-compatible text-to-speech server around the Supertonic
model, verified with Verus.

- `src/` is the verified library: the voice table built from the voice style
  files, request defaults and validation (model, voice, steps, language,
  response format), the answers to errors, the model list, the Opus
  identification and comment headers, the framing of samples into Opus
  frames and the order of packets in the Ogg stream (written with the `ogg`
  crate), and the WAVE sample layout.
- `app/` is the HTTP server (axum, tokio, clap): it reads the voice styles
  directory, runs the synthesis model, converts and encodes the floating point
  samples (hound, opus, rubato) and serves the API.
- `tests/` exercises the library on concrete values.
