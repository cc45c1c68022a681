# voiceinput

Hold the right Ctrl key, speak, release: the speech is transcribed offline and the
text lands on the clipboard.

- `src/` is the library, verified with Verus: the trigger-key detector
  (`hotkey`), the decisions of the record/transcribe cycle (`pipeline`, `state`),
  the punctuation fixing and hallucination filter (`punctuation`, `transcript`,
  `text`), the model-file header check and thread count (`model`), the download
  address, response handling and progress reports (`download`, `decimal`), the
  configuration defaults (`config`) and the tray menu entries (`tray`).
- `app/` is the desktop program around it: windows and tray (tauri), audio capture
  (cpal), keyboard hooks (evdev/rdev), clipboard (arboard), speech inference
  (whisper-rs), HTTP download (ureq) and the configuration file (toml).
- `tests/` exercises the library.
