# safedrive

The core of the SafeDrive client as a verified library, with the I/O around it.

- `src/` is verified with Verus:
  - `endpoint`: the API endpoints, their methods, paths, URLs and auth tokens;
  - `bodies`: the JSON bodies of requests and the record of a session download;
  - `responses`, `status`: what each call makes of the server's status code;
  - `multipart`: the multipart/form-data framing of uploads;
  - `keys`: the hex body that carries a wrapped key set;
  - `sync`, `sync_machine`: the counters, phases, upload messages and archive
    entries of a sync session;
  - `text`, `error`, `models`: decimal rendering, errors and plain data.
- `app/` sends the requests (reqwest), reads and writes JSON (serde), walks
  the folder (walkdir), builds the session archive (tar) and runs the threads
  of a sync session (parking_lot_mpsc); the decisions of a sync session and
  of each call's outcome are the library's.
- `tests/` runs the library on concrete values.
