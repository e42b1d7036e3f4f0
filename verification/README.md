# audio

Audio and LED services of a voice assistant edge device: wake word
handling, the binary TCP protocol between the audio service and its
clients, playback bookkeeping, media pausing, and the LED ring controller.

## Layout

- `src/` is the library, written in Verus. Its functions are verified
  against their contracts: the wire protocol and its round trips, the
  playback and capture bookkeeping, the wake word warm-up and detection
  latch, the decisions of the servers and of the
  pause exchanges, the LED state machine, the parsers of `amixer` and
  service replies, the speech-to-text and text-to-speech session steps, and
  the message texts. A few functions whose result rests on the clock or on
  shared atomics (`current_timestamp`, `atomic_min_u64`, `atomic_max_u64`)
  have no clause that states their value. Calls into other crates and into
  the parts of the standard library that Verus does not model go through a
  few small functions whose contracts are assumed; each says in its doc
  comment what it claims.
- `app/` is the LED controller program (HTTP API, I²C bus, animations),
  together with the I/O that surrounds the library's decisions: posting
  LED events, pausing mpv and Spotify, the mixer, the calendar tools, and
  the streaming transcription and synthesis sessions.
- `tests/` exercises the library on concrete values.
