# forum_client

A terminal client for a small forum service. The library (`src/`) holds what
the client decides: which screen ("frame") comes next, which request each
action sends (URL, form fields, headers), how the service's replies and status
codes are turned into messages and moves, how menu choices are read, how the
numbered forum list is shown and how a forum is picked from it, and how the
chat stream is read. Each of these is verified with Verus.

`app/main.rs` is the program around it: it reads the terminal, sends the
requests with `ureq`, parses JSON with `serde`, and prints.

Layout of `src/`: `lib.rs` (frames, outcomes, requests), `util.rs` (replies,
menu input), `text.rs` (decimal numbers, prefixes), `frames/` (home, forums,
one forum and its chat).
