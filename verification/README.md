# echotune

A terminal music player whose core is verified with Verus.

`src/` is the verified library:

- `input` — the key decoder: one byte at a time, plain keys and `ESC [ x` arrow sequences.
- `player` — the decisions of the input, render and audio loops (song index, repeat, pause, seek, end of queue).
- `playlist` — turning the lines of a playlist file into entries (comments, `~` expansion).
- `file_format` — telling Ogg, MP3, FLAC and WAV files from playlists by their first bytes.
- `configuration` — the settings, their defaults and the path of the settings file.
- `text` — repeated characters, decimal numbers, the last component of a path.
- `tui` — the layout of the interface: queue rows, box edges, the playback bar, the full and minimal views.
- `tooey` — an alternative layout of the interface.

`app/` is the program around it: the terminal, the sound device (rodio), the settings file (basic-toml), the threads and their loops.
