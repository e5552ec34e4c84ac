# seasons

Control of Philips Hue lights, rooms, scenes, automations and Entertainment audio sync,
with an assistant that turns a spoken request into bridge actions through a local Ollama
server.

`src/` is the library, verified with Verus: every public function carries a contract over
mathematical models (`Seq`, `Map`, `Multiset`, spec functions), and the laws that span
several functions stand as public proof functions.

- `text`, `string_ops`, `json`, `sorting`: strings, a JSON value model (read from text
  through `serde_json`) and a stable sort.
- `hue`: bridge configuration, request building and response reading, models and their
  conversions, entertainment packets and frame counters, colour reading, sensors, areas,
  presets and the audio-sync session decisions.
- `rooms`, `ui_rules`, `automation`, `theme`: room sections and ordering, the rules the
  interface follows, the automation configuration editor and the theme tokens.
- `ollama`: planning prompts, reply repair and decoding, retry rules and the execution of
  a plan as a state machine.
- `app_state`: the saved bridge connection, room orders and preferences.

`app/` is a command-line program around the library: HTTP to the bridge and to Ollama,
files under the XDG directories, DTLS streaming, PipeWire capture and the floating-point
colour and audio arithmetic.

`tests/` runs the library on concrete values.
