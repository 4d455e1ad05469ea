# spotify_player

The event handling, the interface state and the login of a terminal Spotify player, verified with
Verus.

- `src/` is the library. Each handler is a function from a state and an event to the next state, the
  requests for the client, and what is left to do (read the clipboard, hand a command to a window,
  refresh a token). Contracts are stated over views of the state; laws that relate several handlers
  are the public proof functions whose names begin with `law_`.
- `tests/` runs the library against the real `chrono`, `ratatui`, `regex`, `rspotify` and
  `librespot-oauth`.
- `app/` holds the terminal loop, the locks, the channel to the client, the network and the files.

Functions whose names begin with the name of an outside crate (`chrono_`, `rspotify_`, `regex_`,
`librespot_`) call that crate; their contracts are not proved here.
