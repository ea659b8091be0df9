# bunkr_uploader

A command-line uploader for the bunkr file host, split into a verified
library (`src/`, checked by Verus) and a thin program around it (`app/`).

The library holds the decisions of an upload session, each with a contract:

- `text`: decimal formatting and parsing (as `to_string` / `parse::<u64>`),
  Unicode trimming, substring search and line splitting, over `Seq<char>`.
- `encoding`: the trusted boundary to `base64` and to std's UTF-8 decoding.
- `token`: the token file format (base64 of the token's UTF-8 bytes), with
  the law that a saved token reads back unchanged, and the token dialogue.
- `upload`: reading a file's facts from command output, the per-file plan
  (skip / refuse / one request / chunks), the batch accounting
  (successes + skips + failures = files) and reply handling.
- `chunked`: chunk file names, the chunk protocol fields, progress that
  counts accepted chunks capped at the file size, and the assembly request.
- `album`, `paths`, `session`: answers to the prompts, album labels, the
  session's file layout and its random chunk folder name.

`app/` does the terminal, file system and network work: it asks, reads,
sends and prints, and hands the library plain values.
