# tubgerm

A terminal client for Subsonic-compatible music servers. The library in
`src/` holds its logic, verified with Verus; `app/` is the program around
it: terminal drawing and input, network, audio, keyring and configuration
file.

## Library modules

- `main_view`, `panels`, `sidebar`, `selection`, `layout`, `rows`: the
  main view — focus, sidebar navigation, centre and right panels, what each
  key does, and the measurements and texts that drawing needs.
- `login_form`, `ui`: the login form and the screen state machine
  (loading, login, main view, fatal error).
- `session`: the session state machine — start with the saved account,
  log in, log out, and turn commands into work for the outside world.
- `library`, `id_map`: the library as fetched, the cache of opened
  playlists and albums, and the play queue.
- `event`, `text`, `config`, `config_store`, `user_data`,
  `keyring_service`, `fetch`: messages, string building and the account.

`tests/` runs the library on concrete values.
