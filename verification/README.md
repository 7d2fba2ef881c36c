# coderadio

A terminal player for [freeCodeCamp Code Radio](https://coderadio.freecodecamp.org).

- `src/` is the verified library. `stream` is the reconnecting ring buffer,
  `nowplaying` the metadata poller, `ui` the state and the keys, `screen` what is
  drawn, `playback` when to connect and decode, `probe` the offline check of a
  stream, `mpeg` and `id3` what it takes to tell audio that the decoder returns
  from, `cli` the options, `text` and `terminal` what the screen is made of.
- `app/` is the program around it: terminal, audio output, HTTP and threads. Its
  audio output needs rodio's `playback` feature, which on Linux needs ALSA.
- `tests/` runs the library on concrete values.

The library calls crossterm for the escape sequences of a frame and rodio to
decode audio from memory. The contracts of those calls, in `terminal` and
`probe`, are what the proofs rest on without having proved it.
