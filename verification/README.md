# sqa

The logic of a show-control (cue playback) server and its client, verified
with Verus: the OSC command protocol, the server's handling of commands and
clients, actions and their order, the undo history, the mixer configuration,
the playback state machine of actions, fade and audio action parameters, and
the client's connection state machine and action list.

Layout:

- `src/` — the verified library. Each module states its contracts over spec
  functions and views; laws that relate several operations are public proof
  functions named `lemma_*`.
- `tests/` — tests of the library on concrete values.
- `app/` — the server program around the library: sockets, the event loop,
  and MessagePack (rmp-serde) of command arguments and replies. Datagrams
  are decoded, and messages encoded and routed, by the library (which calls
  rosc). Commands the library hands back (creating, describing, updating,
  loading, executing, pausing and resetting actions, waveform requests, the lookups
  that undoing needs) are carried out by library calls whose results the app
  sends as replies.

The server here has no audio engine and opens no media files: where the
engine would answer (a fade's target running, an audio action playing) the
app answers that it is not there; setting the mixer configuration is
answered with an error saying so; audio actions report
that their file cannot be opened; making or loading save files is not
offered.
