# saddle-camera-third-person-camera

A third-person camera rig for Bevy (follow, orbit, zoom, smoothing,
screen-space framing, obstruction handling, and optional shoulder/aim,
lock-on, cursor and enhanced-input adapters), split into a verified core and
its Bevy integration.

- `src/` is the core, verified with Verus. It holds every decision of the rig
  that does not depend on floating-point arithmetic:
  - `action`: shoulder sides, framing modes, the action-input inbox, the
    shoulder rig's home/target state, cursor-lock ownership, blend targets,
    effective/current mode, and lock-on selection and engagement.
  - `components`: the orbit state (`ThirdPersonCamera<S>`, generic over the
    scalar it only copies), discrete input application and recentering, the
    follow-target descriptor and the obstruction ignore set, and debug-draw
    planning.
  - `config`: collision strategies and their sample patterns, obstacle
    padding shares, follow alignment and reference-yaw selection.
  - `effects`: the named effect-layer table (`set`, `remove`, `get`,
    `get_mut`, `active_count`) and its read-after-write laws.
  - `routing`: which camera owns input and whose inbox is cleared.
- `app/` is the Bevy plugin: ECS components (with `Component`/`Reflect`
  derives, converting to the core types), systems, floating-point rig math
  (angles, smoothing, poses, segment/box hits, framing zones, candidate
  ranking), gizmo drawing and the `bevy_enhanced_input` bridge.
- `tests/` exercise the core on concrete values.
