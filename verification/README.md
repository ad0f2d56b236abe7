# ghostty

The front end of a terminal engine, verified with Verus. The engine parses escape
sequences, keeps the screen and encodes events; this library holds what is decided
around it.

- `status`, `snapshot` and `snapshot::incremental`: what the engine's answers mean;
  capturing a terminal record by record, restoring it from staged or pushed
  fragments, and paging live history from one terminal into another.
- `terminal`, `report`, `key`, `mouse`: options, modes, effects, events, and the
  settings of the encoders.
- `draw`, `input`, `scrollbar`, `pty`, `session`, `run`: a small terminal emulator,
  as a state machine that asks for one action at a time, and its frames as lists of
  drawing operations.
- `native`: which commands fetch and build the engine, and which library they must
  leave behind.
- `text`, `utf8`: the strings that the rest needs.

Types that own an object of the engine are generic over the handle that stands for
it. Contracts are stated over views; properties that span several functions are
public proof functions whose names begin with `law_`.

`app/` is the program around the library: system calls, the window, and the calls
into the engine. `tests/` runs the library, with small stand-ins for the engine.
