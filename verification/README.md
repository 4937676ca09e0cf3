# synapsed

The daemon of an intercom station: indoor stations and door stations call
each other over an MQTT broker, stream audio to each other over UDP, and a
touch user interface talks to the daemon over gRPC.

## Layout

- `src/` — the verified library (Verus).
  - `text.rs`: character-level helpers (trimming, searching, `str::lines`,
    decimal numbers, lexicographic order, path joining).
  - `station/state/devices.rs`, `station/set/devices.rs`: the devices of the
    installation, this station's location and the three call buttons.
  - `station/state/ringtone.rs`: the MP3 ringtones of the ringtone directory
    and the chosen one.
  - `station/act/call/`: the call protocol — the call messages, the call
    handler as a state machine that returns the effects of each step, and the
    reaction to received messages.
  - `station/act/audio/`: the `wpctl status` parser and the state of the
    network audio.
  - `station/api/`: the replies of the user interface's services.
  - `station/display/`, `platform/linux/`: display settings and backlight values.
  - `networking/mqtt/`: MQTT settings, subscriptions and publications.
- `tests/` — tests of the library.
- `app/` — the program around the library: files, sockets, the sound card,
  the MQTT event loop, the gRPC server and the threads that connect them.
