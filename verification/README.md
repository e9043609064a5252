# rustframe

RustFrame shares a region of the screen in video calls: a hollow border marks the
region, a preview window shows what is captured, and the preview window is what the
call application shares.

This crate holds the application's logic as a library verified with Verus, and a thin
desktop application around it.

## Layout

- `src/` — the verified library.
  - `capture.rs`: starting, stopping and abandoning a capture, one step at a time, with
    the laws of a run.
  - `services.rs`, `capture_platform.rs`, `preview.rs`, `interaction.rs`: the windows of
    a capture session (border, preview window, recording indicator, separation layer) and
    what happens when the border is dragged.
  - `hollow_border.rs`: the border's geometry and the region inside it.
  - `settings.rs`, `settings_io.rs`, `json.rs`: defaults, migration of settings files,
    merging of profile overrides, the active profile.
  - `profiles.rs`, `locales.rs`, `remote.rs`: capture profiles, translations, and the
    answers of the servers they are downloaded from.
  - `separation.rs`, `colors.rs`: the separation layer's icon, font name and watermark.
  - `lifecycle.rs`, `display.rs`, `system.rs`, `shortcuts.rs`, `paths.rs`, `order.rs`,
    `text.rs`, `platform.rs`: start-up and shutdown, monitors, small system decisions,
    shortcuts, directories, orderings and strings.
- `tests/` — tests of the library.
- `app/` — the desktop application: commands of the user interface, files, network,
  capture engine and render thread.
