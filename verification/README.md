# limux-host-linux

The tab, pane and shortcut-editor logic of the Limux Linux host, with its
contracts and proofs, and the GTK program around it.

- `src/tabs.rs`: a pane's tab strip as data (`TabState`): adding, activating,
  removing, closing, pinning, renaming, reordering, cycling, moving tabs
  between panes, saving and restoring; `src/tab_laws.rs` proves how these
  operations fit together.
- `src/layout.rs`: the saved form of a pane.
- `src/payload.rs`: the text a dragged tab carries, and reading it back.
- `src/drop.rs`: where a dropped tab lands and what a drop asks for.
- `src/keybinds.rs`: shortcut labels, tooltips, refusal messages and the
  capture state of the shortcut editor.
- `src/browser.rs`: URL-bar input, first page, recorded addresses.
- `src/text.rs`, `src/ids.rs`: white space, terminal titles, environment
  values, fresh tab ids.
- `app/`: `main`, the GTK widgets and their event handlers, which call the
  library for the decisions on tabs, drops, shortcuts and addresses. The
  zone of a content-area drop is read from floating-point fractions of the
  pane's size there, and the terminal resources directory is found on disk
  there.
