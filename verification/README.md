# neurodesk

The logic of NeuroDesk, a desktop chat client for local Ollama models, as a
Verus-verified library.

- `src/backend.rs`: the generation request parameters, the one-shot question
  command's request and reply, the greeting.
- `src/stream.rs`: the streamed-answer relay of the desktop shell as a state
  machine (install cancellation token, open stream, relay chunks as window
  events, announce end or cancellation, clear token), with its laws.
- `src/panels.rs`, `src/chat.rs`: the window's question, streaming and chat
  panels as state machines that take the user's actions and the shell's
  events and issue commands, with their laws.
- `src/models.rs`: the model list and model choice.
- `src/markdown.rs`: Markdown rendering of answers through comrak.
- `src/nav.rs`: navigation links, menu and dark mode switch.
- `src/text.rs`: literal replacement and decimal rendering on characters.
- `app/`: the Tauri commands and the Leptos components that perform the I/O.
