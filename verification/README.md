# herdr_last_tab

A Herdr plugin that toggles focus between the current tab and the previously focused
one, tracking tabs by their stable ids. The decisions are a Verus-verified library;
`app/` is the program around it.

- `src/command.rs`: the command line (`toggle`, `focused`, `closed`) and the usage line.
- `src/json.rs`: a model of JSON documents, member lookup, and the calls into
  `serde_json` that parse and print them.
- `src/protocol.rs`: the tab id of an event or of an action's context, and the error a
  `tab list` response may carry.
- `src/tabs.rs`: the tab list and its focused tab.
- `src/memory.rs`: the remembered tabs and how toggles, focus events and close events
  change them, with the laws they obey.
- `src/persist.rs`: the stored form of the memory and its repair on load.
- `src/session.rs`: one run of the plugin as a state machine; the caller performs the
  actions and reports back.
- `src/error.rs`, `src/clock.rs`, `src/store.rs`: errors, the time stamp, the state paths.
- `app/main.rs`: environment, the `herdr` CLI, file locking, and reading and writing
  `state.json`.
