# ragdoll_playground

A 2D ragdoll playground. The verified library (`src/`) holds everything that can
be stated in integers:

- `ragdoll::components`: the ten body parts, their boxes, masses (tenths) and
  colours (hundredths per channel), and the state of a spawned part.
- `ragdoll::functions`: the ordered steps that assemble a ragdoll (parts,
  joints, and pausing the clock), with the proof that they form a skeleton
  rooted at the torso.
- `level`: the floor, walls, ledge and staircase, with the proof that the
  staircase joins the ledge to the floor.
- `control`: the direction the movement keys push in and what the space bar
  does to the simulation clock.

`app/` is the game itself: it runs the engine and the physics, converts the
library's integer units into world floats, and does the floating-point
steering and particle motion.
