# positive_mahjong

A mahjong game for up to four players: a server that deals and runs the
turns, and clients that connect to it over websockets (the first server
speaks JSON over HTTP). The library under `src/` holds the rules and the
decisions of every part, verified with Verus; `app/` is the program around
it: sockets, threads, JSON and the terminal.

Modules of the library:

- `table` — seating, dealing the starting hands, drawing and discarding,
  shared by the rulesets that use one deck of 144 tiles; `random` holds the
  two calls into `rand` it makes.
- `v2_better_shared`, `v2_better_mode` — the V2Better tiles, messages, deck
  and game; the bookkeeping of the messaging thread's tasks.
- `base_shared`, `base_mode` — the same for the Base ruleset.
- `v1_simple_shared`, `v1_simple_mode`, `v1_server` — the V1Simple ruleset,
  its rounds and game loop, and the first server's answers to requests.
- `shared`, `pmj_shared` — the request and connection protocols.
- `client_core` — what a client knows of the game and what it does when one
  of its background tasks ends; reading the server's address with `url`.
- `client_desktop`, `pmj_client`, `server_gui`, `test_client` — the logic of
  the windows: home pages, on-screen keyboard, server panels, test requests.
- `licenses` — the licenses of the crates the program is built from.
- `text` — small numbers in decimal.

`app/main.rs` runs `server` (the V2Better server), `client <url>` (a
terminal client) or `licenses`.
