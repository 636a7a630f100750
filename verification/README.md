# ados_media

The video pipeline of an agent node and the terminal cockpit that watches it,
as a verified library with a thin program around it.

- `src/` holds the rules: camera discovery, encoder selection and command
  lines, the start, health and retry ladders of the pipeline, the attention
  state and its socket protocol, the media server's configuration, recording,
  the vision tap, and everything the cockpit shows or does on a key press.
  Every function has a contract; the `law_*` proof functions state what holds
  of the library as a whole.
- `app/` reads the clock, the files and the sockets, runs the processes and
  draws the screen. It performs the actions that the library asks for and hands
  back what happened.
- `tests/` runs the library on concrete values.

Times are nanoseconds in a `u64`. A few functions call other crates through
wrappers whose contracts are assumed; each says so where it stands.
