# rms_recorder

A meeting recorder for Windows: it captures microphones and system audio,
streams a live transcript from Deepgram, transcribes the saved WAV file with
Groq Whisper and AssemblyAI after review, and writes an AI summary through an
OpenAI-compatible chat API.

## Layout

- `src/` is the verified library (Verus). It holds the session state machine
  (`session.rs`, `workflow.rs`, `stage.rs`), the options and their settings
  file form (`options.rs`), storage paths (`storage.rs`), device selection
  (`devices.rs`), the window icon choice (`icon.rs`), the integer audio
  pipeline (`audio/`: mixing, WAV activity counting, capture decisions) and the
  request planning and reply handling of each service (`services/`). Calls
  into `chrono`, `directories`, `ico` and a few `std` functions go through
  small trusted wrappers whose contracts are documented beside them.
- `app/` is the program around it: the egui window, WASAPI capture threads,
  the tokio workers, HTTP and websocket traffic, files, and the floating-point
  parts of the activity analysis (the logged RMS level and the conversion of a
  decibel threshold into the library's integer power ratio).
- `tests/` exercises the library through its public API.
