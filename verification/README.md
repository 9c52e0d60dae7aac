# pusillanipous

The game logic of a small terminal toy, verified with Verus: a cursor that
flies around the screen and leaves a fading trail, an emblem that reacts when
touched and, once provoked enough, chases the cursor and shakes it, a short
guided tutorial, and an animated about box.

## Layout

- `src/` — the library, every function with a contract proved by Verus.
  - `geometry`, `tint`, `text`: cell rectangles, colours, styled text.
  - `layout`: centring boxes with ratatui's layout solver (the only calls
    into an outside crate, behind two trusted wrappers).
  - `cursor`: the cursor, its trail and its spiral toward a target.
  - `input`: held arrow keys, with and without release events.
  - `tutorial`, `menu`: the lessons and the about box.
  - `emblem`, `chase`: where the emblem sits, what it draws, and how it
    chases the cursor and returns home.
  - `game`: the whole game as a state machine, one step per key or frame,
    and the layout of one screenful.
  - `laws`: properties that span several operations.
- `tests/` — tests on concrete values.
- `app/` — the terminal program: input, the clock, the floating-point
  spirals, and drawing with ratatui.
