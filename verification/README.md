# termtube

A terminal YouTube music player, split into a verified library and a thin
program around it.

- `src/` is the library, written in Verus. Every function carries a contract
  that Verus proves: the playback queue, the preloaded play state (linear and
  shuffled order, history, refills), the interactive session that maps each
  user action to a new state and a list of effects, key mapping, the playlist
  and cookies file formats, settings and their defaults, favorites, search
  cache keys, the `yt-dlp`/`ffmpeg` command lines, PCM decoding and the
  bounded sample buffers, and the texts and geometry the panels show.
  Laws that span several calls (such as "previous after next plays the same
  song again" or "a bounded buffer keeps the latest samples") are stated as
  public proof functions next to the code they are about.
- `app/` is the program: command-line handling, files, processes, audio
  output, the spectrum analyzer and drawing with ratatui. It performs the
  effects the session returns and reports their outcomes back.
- `tests/` exercise the library on concrete values.

Calls into other crates (`shellexpand`, `rand`, `serde_json`, std's path,
hashing and string functions) sit behind small trusted wrappers whose
contracts say what the outside function does.
