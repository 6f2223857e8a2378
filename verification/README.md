# March 7th companion core

The verified core of a desktop companion that offers gentle local reminders
(water, movement, eye rest), a single focus timer, switchable characters, and
a local backup of its three configuration files.

## Layout

- `src/` is the library, verified with Verus. Every function states its
  behaviour in `requires`/`ensures` over mathematical models (`Seq`, `Map`,
  `int`, views of the data types).
  - `reminders/`: the reminder engine (`model`), its worker core and snapshots
    (`service`), the file store's rules (`store`), the one bubble's selection
    (`bubble`), the presentation and window life-cycle policies, and where a
    reminder window goes on its monitor (`ui_geometry`).
  - `focus/`: the focus timer engine (`model`), its worker core (`service`)
    and the file store's rules (`store`).
  - `desktop/`: monitor selection and reachability on integer geometry, the
    placement session, and the position file's store rules.
  - `data_directory/`: the data-set records (pointer, pending import,
    framed SHA-256 digest) and the backup package codec.
  - `import_session.rs`, `local_backup.rs`: the import preview session and the
    gate that serialises the export and import dialogs.
  - `characters.rs`, `build_info.rs`, `build_identity.rs`, `text.rs`:
    character catalog rules and selection, the build identity and the build's
    diagnostic vocabulary, and string equality.
- `tests/` exercises the library on concrete values.
- `app/` is the console program around the library: file I/O, JSON, worker
  threads, and the floating-point window geometry.

The public `lemma_*` proof functions state the laws that hold across calls,
for example that a pending reminder survives everything but its own
completion or a settings change, that a focus timer never lengthens except by
a new start, and that a prepared import is applied exactly once.
