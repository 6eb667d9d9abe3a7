# omarchy-theme-studio

A terminal editor for Omarchy desktop themes: a flat palette of 17 colors,
previewed on a mock desktop, exported as a ready-to-apply theme directory.

The editor's logic is a Verus library, proved against its contracts; a thin
ratatui program around it reads keys, touches the disk and paints the screen.

## Layout

- `src/text.rs` — string helpers with specifications (ASCII classes, hex and
  decimal digits, subsequence search, ordering and sorting of names).
- `src/theme/` — colors, the palette and its field/group model, hex parsing,
  and the built-in presets.
- `src/config/` — the text of every generated theme file, the list of files a
  theme directory holds, and the errors reported on disk or apply failures.
- `src/ui/state.rs` — the editor as a state machine: navigation, the field
  finder, yank/paste/undo, the color picker, the theme loader, save, apply and
  update prompts. Disk and process work is passed in as outcomes.
- `src/ui/keys.rs` — what each key does in each mode.
- `src/ui/picker.rs` — the color picker: focus over the sliders and the hex
  field, RGB slider nudges, the RGB/HSL switch, and hex entry.
- `src/ui/view.rs`, `src/ui/render.rs` — what the preview and each overlay
  show, as styled text, and where overlays go.
- `src/ui/laws.rs` — properties spanning several operations (navigation
  cycles, undo and cancel restoring colors, saved-name shape, loader filters,
  gated apply, saving inside the theme's directory).
- `src/cli.rs` — the command line and the headless `export` command.
- `app/` — the program: terminal loop, drawing with ratatui, the picker's
  HSL field (floating point), theme directories on disk (serde for
  `palette.json`), running `omarchy-theme-set`.
- `tests/` — tests of the library.
