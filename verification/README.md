# notification_core

The logic of a desktop notification plugin, verified with Verus.

- `src/listeners.rs`: the table of event listeners (event name to channel ids, in
  registration order), with its invariant that no name occurs twice.
- `src/keyed.rs`: lists of (name, value) pairs with unique names, and the maps
  they stand for (used by the listener table and the extra payload).
- `src/laws.rs`: what holds across registering, removing and emitting.
- `src/desktop.rs`: the plugin handle (permissions, listeners), the payload that
  actions are reported with, and what a notification builder shows.
- `src/desktop/imp.rs`: the desktop notification, the calls it makes on the
  operating system's notification per platform, and how an answer of the user is
  reported.
- `src/commands.rs`: the commands of the front end.
- `app/`: the Tauri plugin around the library: locks, channels, JSON, and the
  operating system's notification service through `notify-rust`.
