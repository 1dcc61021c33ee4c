# Tasks

The decisions of a desktop task-list application, verified with Verus: which list is shown,
what the dialogs, menus, keys and settings do, what is stored, and in which order all of it
happens.

- `src/` is the library. `model` says what each event does to the state and which jobs it
  leaves; `app` carries that out; `runtime` keeps the jobs in order; `nav`, `preferences`,
  `text` and `ui` hold the navigation bar, the settings for the language model service, the
  text functions and what the windows show; `laws` states what holds of the whole.
- `app/` performs the commands of the library: the key store, the clipboard, the browser and
  the network directly, and the windows, pages and lists through the `Toolkit` trait.
- `tests/` runs the library on concrete values.
