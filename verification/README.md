# spotify_api

A client of the Spotify Web API whose logic is verified with Verus.

The library (`src/`) builds every request the client sends, reads every
answer it gets back, keeps the user's album library, and decides what the
windows of the player show. It does no I/O: a request is a plain
`HttpRequest`, and what came back is handed in as a plain `HttpOutcome`.

- `command`: the requests of the Web API and the access token they carry;
  `command::communicator` says how an answer is read.
- `json`: JSON values as `serde_json` parses and prints them, navigated the
  way `serde_json::Value` is indexed.
- `model`, `objects`: the Web API's objects and how they are read from JSON.
- `apis`: what the client makes of each answer, and what it keeps on disk.
- `library`: merging downloaded items into the kept ones, by identifier.
- `interface`: sorting and filtering the library, the album and artist
  windows, the player line, and the plan for bringing the library up to date.
- `data_manager`: a keyed store whose writes are announced to subscribers.
- `client`: the terminal client's lighter view of tracks and albums.
- `token_retrieval`: the first-run authorization.

`app/` is the program around it: curl sends the requests, the files are read
and written there, the first-run dialogue happens there, and background
threads keep the library and the player state up to date.
