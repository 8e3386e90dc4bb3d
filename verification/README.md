# sdl_test

A small SDL shoot-'em-up: a start button, a plane that follows the mouse and
shoots on click, enemies that fall, shoot back and end the game when they hit
the plane.

- `src/` is the game's logic, verified with Verus: integer rectangles and
  their overlap (`rect`), input events (`event`), window layout (`layout`),
  sprites and the entity traits (`sprite`), the plane and the bullets
  (`plane`), the random decisions (`chance`, on top of `rand`) and the scene
  with its pools, event dispatch, collisions and end-of-frame queue
  (`world`).
- `app/` opens the window with `sdl2`, loads the textures, keeps the
  floating-point positions and speeds, draws, and runs the frame loop,
  asking the library for every decision.
- `tests/` exercises the library on concrete scenes.
