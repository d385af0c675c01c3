# rusty_runner

The rules of *Rusty Runner*, a 2D platformer, as a library whose functions
carry `requires`/`ensures` contracts proved with Verus, and the game program
around it.

- `src/` — the verified library:
  - `input` — keyboard state to game input messages;
  - `player` — movement intent and velocity, hits and lives, power-up timers;
  - `items` — power-up pickups;
  - `state` — screens, menu transitions, lives, coins and score;
  - `boss` — the boss's phases, stomps and walker summoning;
  - `enemy`, `platforms` — patrol turns and moving-platform waypoints;
  - `level` — roles of named map objects;
  - `replay` — recording of inputs;
  - `bot` — the right-running, random and path-finding bots;
  - `timer` — frame timers, ticked through the engine's timer;
  - `text` — heads-up display lines, menu labels and sprite paths.
- `tests/` — tests of the library.
- `app/` — the game: engine plugins and systems (entities, physics,
  floating-point motion, rendering, save files) that call the library.
