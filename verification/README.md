# mediaportal_api

An HTTP service that keeps user accounts and, per account, a store of media
files: videos fetched with `yt-dlp` and uploads converted with `ffmpeg`.

- `src/` is the verified library. It decides how every request is handled:
  `flow` drives a request from `begin` through `advance` to its reply,
  asking for one piece of outside work (a database statement, a file-system
  operation, a tool run) at a time. `accounts` and `library` hold the
  endpoints, `checks`, `naming` and `tools` the parts they share, `media`
  and `text` the formats, arguments and names, `config` the configuration,
  `laws` what holds of every request handled, and `model` what holds
  of whole requests and sequences of them over a database whose account
  and media tables answer truthfully.
- `app/` is the program: configuration loading, the HTTP endpoints, the
  database, the file system and the external tools.
- `tests/` runs the library on concrete requests and answers.
