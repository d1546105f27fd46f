# rustarok_client

Client-side logic of a Ragnarok-style action game, written in Verus: the
functions under `src/` carry `requires`/`ensures` contracts that Verus
proves, save a few small trusted wrappers around calls into the standard
library, `encoding` and `sublime_fuzzy`, whose contracts are believed.

- `spr`, `act`, `rsw`, `binary_reader`: decoders of the game's sprite,
  animation and map-resource files, each with a `try_load` that accepts
  exactly the files its specification calls well formed.
- `statuses`, `attrib_mod`, `timed_statuses`: the 32-slot status table of
  a character, the attribute changes statuses make, stun, death and poison.
- `simulation`, `frame_durations`: pacing of simulation steps against the
  render loop, and per-system frame timing.
- `asset_db`, `job_names`, `skills`, `cursor`, `char_visuals`: the asset
  registry, job names, skill icons and targets, cursors, sprite actions.
- `input`, `input_consumer`, `imgui_data`, `delayed_packets`: key and
  mouse state, key bindings, camera and skill-set switching, debug-window
  state, a lag-simulating packet queue.
- `console_*`, `autocompletion`, `spawn_area`, `number_format`: the
  in-game console: line editing, history, argument reading, fuzzy
  completion (through `sublime_fuzzy`), command echo, number formatting;
  `console_step` runs one frame of it, from the frame's keys to the edit
  they ask for, and `console_commands` enters lines, opens the completion
  popup and writes a chosen completion into the line.
- `skill_bar`, `turret_ai`, `snapshot_ack`, `collision`: layout of the
  skill bars, target choice of turrets, the acknowledgement of client-side
  predictions by the server, and the collision groups a body ignores.

`app/main.rs` is a small command-line front end that decodes the files
named on its command line. `tests/` holds the tests.
