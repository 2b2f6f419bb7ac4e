# rga_adapters

Adapters that search archives by means of outside programs: 7z archives with `7z`, RAR archives with
`unrar`, or with `7z` where there is no `unrar`.

- `src/` is the verified library. It decides what to run, reads what the programs print, and says which
  files are handed out to be searched.
  - `text`, `listing`: lines, fields and trimming; the entries that a listing names.
  - `tool`, `error`, `archive`: commands, what came of running them, and what that tells.
  - `info`, `meta`: files to search; the descriptions of the adapters.
  - `sevenz`, `rar`: the two adapters.
  - `session`: a search as a state machine, one action of the outside world at a time.
  - `course`: searches as a whole, and the laws that hold of them.
- `app/` performs the actions, asynchronously.
- `tests/` exercises the library.
