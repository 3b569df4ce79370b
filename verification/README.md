# deez_notes

A terminal Markdown note manager, with its logic written in Verus and
proved against its contracts.

- `src/` is the verified library: the notes and folders model, filtering,
  fuzzy search and stable sorting, the application state machine that turns
  key actions into new states and file-system effects, the Markdown
  renderer, the note file format, the key and mouse maps, the panel and bar
  contents, themes, settings, the update-check decisions and the
  command-line queries. `src/laws.rs` states properties of the library as a
  whole.
- `app/` is the program around it: the terminal event loop and drawing,
  reading and writing notes and the configuration, the editor and viewer,
  the network update check and the command line.
- `tests/` exercises the library on concrete values.
