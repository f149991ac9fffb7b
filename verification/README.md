# ufo_plugins

The game rules behind the camera and UFO plugins of a bevy arcade game,
written in Verus and verified.

- `src/camera.rs`: fitting the game area into the window (`window_to_viewport`),
  with laws that the viewport lies inside the window, is centred, spans one
  side of the window, keeps the aspect ratio and depends on it only.
- `src/ufo.rs`: the score threshold of the next UFO (`NextUfoScore`), what a
  projectile does to a UFO (`hit_ufo`, `encounter_ufo`), what a collision does
  to the ship (`ShipHealth::take_hit`), the UFO's animation frame, and laws on
  these, including a model of one frame of the projectile-UFO system.
- `src/random.rs`: the one call into `rand`, a draw of a `u32`.
- `app/`: the bevy systems, bundles and plugins, which do the floating-point
  geometry and the ECS work and call the library for each decision.
