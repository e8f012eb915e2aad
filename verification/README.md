# smol_world

A tiny cube-planet garden game. `src/` is the verified library of its rules:

- `cube`: the six faces of the planet, their outward normals, and the choice
  of the face a position belongs to, with laws on the normals (unit axis
  vectors, opposite pairs, one normal per face).
- `controls`: how WASD and the arrow keys combine into a walking direction,
  with laws on cancelling and interchangeable keys.

`app/` is the Bevy game around it: scene setup, the orbit camera, player
movement and the occlusion fade, all of which work in floating point.
