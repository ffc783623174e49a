# bevy_elan

Decision logic of a floating-capsule first-person character controller and FPS
look camera for Bevy and Avian, verified with Verus.

- `src/` — the verified library:
  - `input` — movement intent from the W/A/S/D and Space keys;
  - `schedule` — the controller plugin's settings (default and driven mode),
    the systems it registers, in which schedule and order, and the laws of that
    plan (the controller's per-step order is the same in every mode);
  - `gates` — the grounding step (grounded marker, last-grounded time), when
    the move force applies, when the ground spring pushes, and when a jump
    fires (enabled, coyote time, cooldown, request);
  - `camera` — the cursor policy (when exactly one look camera is active it
    decides the cursor; otherwise the cursor is left alone) and which
    transforms the mouse look rotates.
  The driven-mode plan holds a look step (`ApplyLook`) ahead of the
  controller's systems. No system or look state for it exists anywhere in this
  project, so `app/` registers nothing for that entry.
- `app/` — the Bevy/Avian glue: components, plugins, the bundle, and the
  floating-point physics (spring, move force, drag, look rotation), which call
  the library for every decision.
- `tests/` — tests of the library on concrete values.
