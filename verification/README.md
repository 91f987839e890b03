# crabfin

The verified core of Crabfin, a desktop client for Jellyfin media servers.

- `src/` is the library, written in Verus: the configuration and the screen decisions
  built on it, the client's request building and error classification, the pool of server
  connections, authentication sessions and tokens, the settings service, the data model,
  theme rules and the parsing of wallpaper settings. Every function carries a contract,
  and the laws that tie functions together are proof functions next to them.
- `app/` is the program around it: the configuration file, the keyring, HTTP, the clock
  in the local time zone, the environment and data directories, logging, the wallpaper
  watcher thread, and the floating-point colour code (wallpaper colour analysis, Material 3
  palettes and their transitions).
- `tests/` exercise the library on concrete values.
