# waddlie_core

The editing logic of the Waddlie scene editor, verified with Verus.

- `src/` is the library. Every function there carries a `requires`/`ensures`
  contract that Verus proves, and the laws that relate several functions are
  stated and proved as public proof functions next to them.
  - `scene`: the scene document (entities, components, lights) and its edits:
    finding an entity by scene id, recording a pose or a web command.
  - `gizmo`: the selection and transform-gizmo state machine, split into the
    steps of one frame (pick, begin, lock axis, plan, confirm/cancel).
  - `rigging`: bone rigging mode and bone selection.
  - `commands`: commands sent by the web page.
  - `loader`: what spawning a scene file or an imported entity creates, and how
    entities are parented.
  - `hierarchy`: ancestor look-ups in an entity hierarchy.
  - `paths`, `text`: asset paths and the string helpers they need.
  - `animations`: ordering of animation names.
  - `transform`: transforms held as `f32` bit patterns.
- `app/` is the Bevy program around it: windowing, input, rendering, the
  floating-point geometry, JSON (de)serialisation and the browser bridge.
- `tests/` holds tests of the library on concrete values.

Numbers that the editor computes with floats are carried through the library as
their IEEE-754 bit patterns (`f32::to_bits`), which the library only stores,
copies and compares; entity handles are carried as `Entity::to_bits`.
