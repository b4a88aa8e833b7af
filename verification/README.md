# fonline_tnf

Verified logic of the TNF tools for the FOnline game engine: the formulas
that compute a critter's parameters and describe how they were computed, the
parameter definitions of the FO4RP rules, the engine's message codes and
parameter access, the draw order of sprites, Windows-1251 text for the
engine, and the decisions of the in-game overlay (chat, avatar windows,
messages from the client).

- `src/` is the library, verified with Verus: `formula` (formulas, their
  evaluation and descriptions, and their laws), `params` (the FO4RP
  parameters), `critter` (the data formulas read), `defines` (message codes,
  parameter access), `draw_geometry`, `engine` (engine records, text
  encoding, DLL state), `overlay` (chat, avatars, bridge messages, window
  state), `client` (avatars and links of the client DLL), `config` (server
  defaults) and `text` (string helpers).
- `tests/` runs the library on concrete values.
- `app/` holds what runs around it: configuration files, colours, float
  formatting and the overlay's frame loop.
