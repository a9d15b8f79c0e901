# shine_helper

Core of the Shine Helper desktop assistant, written in Verus: the wake-word
matcher (Unicode trimming, substring search, pinyin rewrites, Levenshtein
distance), the wake-loop state machine with its cool-down and fallback
counter, the handling of Vosk recognition messages from their JSON text,
the server-sent-event decoder, event reading and response reader of the
OpenClaw chat client, WAV/PCM framing of
the spoken response, skill records and the configuration defaults.

- `src/` — the verified library; each module states its model as spec
  functions and proves its laws as proof functions.
- `tests/` — executable tests of the library.
- `app/` — the Tauri program around it: audio capture (cpal), playback
  (rodio), WebSocket and HTTP I/O, files, and the loops that feed events to
  the library's state machines.
