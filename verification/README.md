# gytm

A terminal YouTube Music client, as a Verus-verified library with a thin
program around it.

The library (`src/`) holds the client's decisions, each with a contract
proved by Verus:

- `cookies`, `session`: which browser cookies belong to a YouTube Music
  session, the `Set-Cookie` lines that rebuild them in a `reqwest` cookie
  jar, the `SAPISID` read back from the jar, and the precedence between
  profiles, containers and browser families.
- `gecko`, `chromium`, `listing`, `paths`: where Firefox, LibreWolf, Zen,
  CachyOS Browser and Brave Origin keep their cookie databases, computed
  from a snapshot of the file system.
- `snapshot`: the retry policy and reports of copying a cookie database.
- `dao`, `bus`: the start page, request URLs and headers (`SAPISIDHASH`),
  the outcome of requests, and how fetched lists are combined.
- `error`: the error type and the messages shown to the user.
- `tui`, `handler`: the state of the terminal interface and how it reacts
  to keys, to the player and to the API worker.

The program (`app/main.rs`) reads the file system and the cookie databases,
connects to YouTube Music and reports the outcome.
