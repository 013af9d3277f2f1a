# cf_control

Verified control-surface logic of the game runtime, written in Verus.

`src/` is the library; every function there carries a contract that Verus proves.

- `save` — last-save metadata, the last-save cache, and the autosave timer.
- `actions` — player action kinds and their method names (proved distinct),
  squad command kinds and their wire ids.
- `net_admin` — parameter records and empty views of the net observe/admin surface.
- `trench` — trench segment variants and modules: wire ids (parse/print proved
  to round-trip), dig and build times, dimensions, default modules, costs.
- `vocab` — intent sources, races, tile affordances, trigger reasons, scar decals.
- `ai` — stress bands and mini-boss phase abilities.
- `origin` — origin resource kinds.
- `squad` — bounding overwatch split (proved unique and a partition of the squad).
- `order` — byte-wise string order and sorted, duplicate-free insertion.
- `worktree` — dirty-worktree evidence: porcelain status parsing, untracked
  paths, and the BLAKE3 worktree fingerprint.
- `runtime` — run configuration assembly and the recorded commit id.
- `behavior` — per-tick AI behavior transitions (cover seeking, suppression,
  retreat, friendly-fire avoidance, high ground), proved to fire once per
  transition, and the squad-comm relay queue: a relay is queued when the
  player is first sighted and delivered to the squadmates, with its delay,
  once its relay tick is reached, and only once. The relay tick itself (the
  delay for the tick rate), the patrol route and the float parts of the event
  payloads come from the AI crate and are not modeled here.

`app/` holds what stays outside verification: serde/schema copies of the wire
types, the mutex-shared save cache, and the probes that read the environment,
run `git`/`rustc` and read files, and the production configuration builder,
which loads the scenario (through the engine's loader, passed in) before it
probes git. `tests/` exercises the library.

## What is not here

- The engine type and every method on it (the per-tick hazard, origin,
  locomotion, long-term-injury, psych and trench ticks, and the action
  dispatchers), and the functions built on the game's own crates (AI
  thinking stack, missions, audio, save/replay, net, equipment, physics):
  neither the engine nor those crates is part of this project's sources.
- Logic on floating-point values (stress bands from stress levels, retreat
  thresholds, distances and rays, resource fractions, bonus summaries,
  event payload quantization): Verus does not verify floating point here.
- JSON payload rendering, which depends on the serialization crates.

