# tanks

The session logic of a two-tank artillery game, verified with Verus.

- `src/game.rs`: the match facts the session reads (mode, difficulty, weapon,
  phase), the aim limits and the computer's turn.
- `src/notice.rs`: the notices shown under the header and their text.
- `src/session.rs`: the session state machine. `step` maps a state and an
  event to the next state and the effects (writes, clock resets, game
  commands) that the window carries out in order.
- `src/laws.rs`: properties that span events (a refused save is never
  written, paused play ignores the controls, a shot needs re-armed controls).
- `app/`: the egui window that draws the field, reads the input, keeps the
  clocks and performs the effects.
