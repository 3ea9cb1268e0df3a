# quicklist

The verified core of QuickList for Spotify, a small web application that
builds a Spotify playlist from quick searches.

- `src/` is the library, verified with Verus: the client's state and what it
  does on each command, backend reply and URL change (`client`, `router`);
  the playlist and its running duration (`playlist`); the search box, its
  results and the highlighted one (`search`); the backend's token and
  authorisation decisions (`backend`); the text shown (`text`, `playlist`);
  and a declarative description of the page (`elements`, `view`,
  `login_window`). What the library takes from rspotify is in `spotify`.
- `app/` is the web client and the backend around the library: storage,
  messages, Spotify requests, rendering and the server. It is built on the
  MoonZoon framework (`zoon`, `moon`).
- `tests/` runs the library on concrete values.
