# keytap

The decisions of a macOS keyboard listener that sits on an event tap, verified with Verus.

- `modifiers`, `flags`, `reconcile`: the modifier keys taken to be held, and how an event's flags
  correct them.
- `event`, `keymap`, `listener`: the kinds of events, the names of keys, and what the listener
  tracks, tells and asks for on each event.
- `callback`: the way of an event through the tap's callback, from its number to its verdict.
- `laws`: what holds from one event to the next.
- `tap`, `spawn`, `run_loop`: the life of the tap thread, and how it is started and stopped.
- `shutdown`: the tap thread and its run loop together, and why a stop ends them.

The table of keycodes and the set of blocking hotkeys belong to the user of the library.

`app/` performs the actions: it talks to Core Graphics and Core Foundation and builds on macOS only.
