# nirix

The verified core of the Nirix desktop tools: the Navi file browser and file
chooser, and the `org.freedesktop.impl.portal.FileChooser` D-Bus backend that
runs the chooser.

- `src/` — the library, verified with Verus. Paths are held as strings;
  `std::path` answers questions about their structure. Module by module:
  `navi_core` (directory listings), `chooser` (request, result, one-shot
  hand-over of the result), `config` (start-up settings and window plan),
  `components` and `screens` (rows, selection, navigation, what opening a path
  does), `app` (the Navi window's state), `navi_chooser` (the chooser
  program's command line and output), `portal_core` and `portal_backend`
  (reading portal requests, building responses and `file://` URIs, driving
  the chooser process).
- `app/` — the portal service: D-Bus plumbing, process spawning and file
  system access around the library. It serves the backend that runs the
  chooser as a separate `navi-chooser` process (`portal_backend::file_chooser`);
  the in-process backend (`portal_backend::file_chooser_backend`) and the
  `navi-chooser` program itself open gpui windows, so they are not part of
  this crate
  (the library holds their logic: `navi_chooser::parse_args` and `report`).
- `tests/` — tests of the library on concrete values.

The graphical front end (the browser and chooser windows and their drawing,
the theme, the layer-shell bar, the chooser window that a portal call opens
in-process) is not part of this crate: it is built on the gpui toolkit, which
this crate does not depend on. What the front end decides is here: the start
settings and window plan (`config`), the rows, the selection and what a click
does (`components`, `screens`, `app`), and the path that Enter or the back
button navigates to (`components::navbar`). `app/navi_core.rs` holds the file
system side the front end calls: listing a directory, telling what a path is,
and opening a file with the system's opener.
