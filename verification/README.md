# komorebi action catalog

The verified core of a tiling window manager's action catalog, written in
Verus.

- `src/` is the library. Every function in it carries a contract that Verus
  proves: typed configuration values and their parsers, the closed set of
  built-in actions with their definitions, offers and availability, the
  revisioned catalog state that prepares, commits and records invocations,
  the logical transitions and planned native effects of every action, the
  confirmation and undo ledgers, the classification of legacy socket
  messages, the binding of invocation arguments to typed actions, and the
  subscriber names, socket paths and registry with the decisions about them.
- `app/` holds what Verus does not see: serialized forms of library types,
  the monotonic clock, native path conversion, and the file system and socket
  work around subscribers.
- `tests/` exercises the library as a user would.
