# nullamp

A music player with voice commands. The crate is in two parts.

`src/` is the library, written in Verus and verified: every public function states in
its contract what it returns or changes, and the laws that tie several functions together
are proof functions. The exceptions are the accessors of values that other threads
change at any moment (the scan's cancellation flag and the equalizer's gains and switch,
held in std atomics): their contracts promise nothing about the value a read returns.

- `session` — the play queue and the interface state: track actions, stepping through the
  queue (shuffle, repeat), the artist folds, the scan window, keyboard shortcuts and
  context menus. Each event returns the command the audio player has to carry out.
- `voice` — the voice panel: recording, transcription, which commands the local rules
  recognize and when the language model is asked, the status line and the microphone
  button.
- `intent` — the local voice-command parser, intent descriptions, the request and prompt
  for the language model and the extraction of the JSON object from its answer.
- `tree` — the artist tree of the library view, with albums in alphabetical order.
- `scan` — incremental scans: which discovered files are new or changed, which stored
  tracks have gone from the disk (a verified sort and binary search by string order),
  the phases a scan reports, and the scan window's progress line and button.
- `library` — audio file extensions, titles and artists from file names, the SQL of the
  track queries, and the short texts of the interface.
- `i18n`, `settings`, `whisper`, `eq`, `player`, `models`, `text` — translations,
  stored preferences, the speech-model catalog, equalizer parameters and presets, the
  playback state, shared records and the string helpers the others build on.

`app/` is the program around it: the SQLite database, the library scanner, audio output
and equalizer filters, microphone capture, speech recognition, the language-model call,
and a console front end that drives the library's state from typed commands.

`tests/` runs the library on concrete values.
