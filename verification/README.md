# flashnx

The logic of a launcher for Flash games on a handheld console, written in Rust and
proved with Verus: the list of games and its order, the screens and what each button
or finger does on them, imports from archive.org and from the Flashpoint catalogue,
the key editor, shared key profiles, playtimes, settings and texts.

## Layout

- `src/` is the library. It performs no I/O: a function takes the state and an event,
  changes the state, and says by an `Effect` what is to be done outside.
  - `text`, `parts`, `digits`, `base64`, `json`: texts, numbers and encodings.
  - `loc`: languages, the tables of texts, the settings file.
  - `net`: URLs, the file lists of items, answers of servers, typed texts.
  - `playtime`, `profiles`: playtimes; the catalogue of shared key profiles.
  - `panel`, `menu`: toasts and panels; the key editor with its pad and keyboard.
  - `library`: the list of games, its screens, and everything behind them. The
    handlers of the buttons are in `library/buttons`, what a frame shows in
    `library/view` and `library/frame`.
- `app/` carries the decisions out: files, requests, the on-screen keyboard, drawing.
  What differs between consoles stands behind the traits of `app/host.rs`.
- `tests/` runs the library on concrete values.

## What is proved

Every verified function of `src/` has a contract over mathematical models, and none
panics. What holds of several functions together is stated by the public proof
functions: a saved file reads back as what was written, an order is unique, no file is
fetched twice, a panel that closes leads on to the screen that was asked for.

Calls into `serde_json`, `flate2`, `png` and some functions of the standard library
stand behind small wrappers whose contracts are believed. Each says so in its comment.
