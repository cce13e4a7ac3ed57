# Memories

A photo and video gallery for GNOME and mobile Linux, built with GTK 4 and
libadwaita. The decisions of the application are a library verified with
Verus; the program around it is ordinary Rust.

## Layout

- `src/` — the verified library (crate `memories`):
  - `util/` — enums of themes and XDG user directories, decimal and
    hexadecimal rendering, directory-listing values, and sequence edits;
  - `application/` — cache locations, theme actions, cache decisions, and
    the list model over the library collection folders;
  - `library/` — the library view, the media grid's zoom levels, grid
    cells, the media viewer and its properties panel, and the list model
    over one library folder;
  - `library_view/` — the older library view and its list model that hides
    directory entries;
  - `utils.rs` — metadata fingerprints (MD5 through the `md-5` crate);
  - `window.rs`, `startup.rs`, `globals.rs` — window state, start-up
    decisions and shared constants.
- `tests/` — tests of the library on concrete values.
- `app/` — the program: environment, processes, files, settings, and the
  GTK interface, which calls the library for its decisions (the setting
  toggles only flip their own state).
