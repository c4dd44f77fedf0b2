# OpenRollback

A local file time machine: it watches a directory, turns the changes made
there into snapshots (metadata in SQLite, file copies under
`~/.openrollback/backups/`), and rolls a snapshot back on request. An MCP
stdio service exposes the same operations to AI agents.

## Layout

- `src/` is the verified library (Verus). It holds every decision the
  engine makes, with its contract:
  - `action`, `records`, `error`, `text`: change kinds, stored records,
    errors and their messages, decimal text, joining and truncation;
  - `paths`, `hash`: path normalisation (the `\\?\` prefix, canonical and
    absolute forms) and SHA-256 hex digests;
  - `events`: the change queue and the cache of file contents;
  - `watch`: which notifications become queued changes, how content copies
    are named, and which existing files are cached first;
  - `order`: a verified merge sort;
  - `snapshot`: coalescing changes into a snapshot, keeping or discarding
    it, and the steps and report of a rollback;
  - `places`, `views`, `mcp`: the data directory and offered directories,
    what the front end is shown, and the MCP routing, tools and replies.
- `app/` is the program around it: file, database and `notify` work, the
  JSON-RPC server, the commands and the demo and check tools. It asks the
  library at every step.
- `tests/` runs the library on concrete values.
