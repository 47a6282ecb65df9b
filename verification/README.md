# bulkpixel

Batch image conversion with presets, statistics and watched folders, as a
library whose rules are proved with Verus, and a command line around it.

- `src/` — the verified library:
  - `text`, `paths`, `units`: strings, path parts, byte counts, durations, dates;
  - `models`: formats, requests, presets, magic directories, statistics;
  - `pipeline`: request checks, resize arithmetic, output naming and collisions, batch totals;
  - `cli`, `commands`, `report`: argument parsing, preset commands, report text;
  - `db`, `statements`, `presets`, `magic`: the SQLite store (through `rusqlite`), the statements it runs, presets, statistics, watched folders;
  - `opened`: files opened before the window is ready;
  - `preview`: thumbnails as `data:` URLs (through `base64`);
  - `laws`: properties of the library as a whole.
- `tests/` — tests of the library on concrete values, with the real crates linked.
- `app/` — the `bulkpixel` program: command line, image decoding and encoding,
  file system, and the folder watcher.
