# junk_cleaner

The decision logic of a Windows junk cleaner, verified with Verus.

- `src/` is the library:
  - `model` — junk items, start-up entries, large files, the window's pages;
  - `text` — decimal rendering and string concatenation;
  - `paths` — Windows path joining, substring search, the program path of a
    start-up command line, the protected directories of the large-file finder;
  - `locations` — the directories that hold junk and the `Run` registry keys;
  - `scanner` — what scans make of directory entries, registry values and
    file sizes, byte totals, clean-up tallies, the processes to trim;
  - `units` — human-readable sizes through the `byte_unit` crate;
  - `window` — the window's state machine: each handler updates the shared
    state and the window's contents and names the outside work to do next.
- `app/` is the Windows program: the native-windows-gui window, the threads,
  and the disk, registry and process work (walkdir, winreg, windows-sys).
- `tests/` runs the library on concrete values.
- `extras/app.manifest` is the Windows application manifest: it asks for
  administrator rights (the system directories cannot be cleaned without
  them) and for Common Controls 6. Embed it into the built executable, for
  instance with `mt.exe -manifest extras\app.manifest -outputresource:junk_cleaner.exe;1`.
