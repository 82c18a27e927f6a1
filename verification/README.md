# rusty_keys

The macOS side of a keyboard remapper. The verified library (`src/`) holds
what the event tap decides:

- `event`: Quartz event types, the event mask the tap listens with, the key
  state an event reports, and what the tap returns for a swallowed event.
- `device`: the keyboard device of the tap, which lets an event through or
  swallows it, and the modifier key codes.
- `config`: the default keymap files and the search for the first one that
  opens.
- `options`: the getopts calls the command line is read with, with the
  contracts they are trusted to meet.
- `cli`: what a command line asks for.

`app/` installs the event tap, reads the environment and the files, prints,
and exits.
