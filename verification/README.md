# tiny-llama-cuda

Configuration, model layout and generation control for a TinyLlama chat model, verified with
Verus.

- `src/llama.rs`: the chat-model and module configurations, their builders and presets, the
  shapes that `init` builds (transformer, rotary encoding, one key-value cache per block), and
  the choice of checkpoint loader by file extension.
- `src/generation.rs`: the generation state machine (which tokens are fed to the model, when a
  stop token or the sample budget ends the generation) and its laws.
- `src/chat.rs`: the chat program's choice of model files, prompt template and time report.
- `app/`: the backend side (`burn` configurations with their derives, softmax, the generation
  driver, file checks and command-line arguments).
