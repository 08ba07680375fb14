# arena_ai

The decision core of an arena combat AI, verified with Verus.

Every tick, each combatant's AI reads a snapshot of the match and decides
what to do: which posture to move in, which ability to try first, whom to
crowd-control, dispel or purge, and what its pet should do. The library
computes those decisions over a discrete snapshot (`CombatContext`: teams,
classes, liveness, stealth, targets, pets and the auras on each unit) and
proves their contracts. Health, mana, positions and timers are floating
point; the caller reduces them to the booleans and entity lists a decision
reads (who is within range, nearest first; is a teammate below a threshold).

## Layout

- `src/` — the verified library.
  - `roster`, `aura`, `policy`, `cc_value` — classes, aura classification and
    priorities, per-team crowd-control and interrupt policies, the dispel
    regime of a crowd control.
  - `context` — the snapshot and its queries (lookups, member filters,
    enemies targeting a unit, friendly crowd control, dispellers, focus).
  - `selection`, `cast_guard`, `kidney` — dispel, purge and Kidney Shot
    target selection, the shared pre-cast guard.
  - `rotation` — each class's ability priority ladder; `guards` — the
    discrete checks of its rungs (effects already applied, forbidden
    targets, reservations, cast deferral while escaping or dipping).
  - `postures`, `kiting`, `hunter_dip`, `paladin_dip`, `priest_dip` — the
    healer and kiter movement machines and the offensive crowd-control dips.
  - `pets`, `pet_dispatch` — the pet tick and the pet ability dispatch.
  - `camera` — spectator camera mode cycling.
- `tests/` — scenarios run against the compiled library.
- `app/` — the ladder runner and healer posture step, the floating-point
  half (health and distance queries, the crowd-control value model,
  movement arithmetic) and the `bevy` resource and camera types around the
  library.
