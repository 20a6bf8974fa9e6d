# rebellion

The game rules of Rebellion, an EVE-inspired arcade space shooter, as a
library verified with Verus, and a Bevy program around it.

- `src/` — the verified library: remappable input bindings and key labels,
  the controller connection lock, booster doses, weapon-mod stacks, the Elder
  Fleet campaign (missions, waves, commander, transport objective), enemy
  wave planning and variant profiles, input replay recording and playback,
  play statistics, the save file's replace-and-recover policy, and the texts
  of menus and result screens. Every public function states its result in
  `ensures`; the `law_*` proof functions state what holds across calls.
- `tests/` — tests of the library on concrete values.
- `app/` — the program: input polling, the clock, entities, the save file on
  disk, serialisation, and the floating-point mechanics (contacts, beam
  ramps, escort movement, stat curves), which the library does not hold.

Randomness comes from `fastrand`, behind two functions in `src/rng.rs` whose
contracts state only the range of what they return.
