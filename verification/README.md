# agent-anacrusis, verified

Pickup notes and preparation for agent systems, with the preparation logic
proved correct in Verus.

- `src/clock.rs` — durations (modelled by their length in nanoseconds) and
  clock readings, with the few standard-library calls the library makes.
- `src/metadata.rs` — the string-keyed metadata map of a pickup note.
- `src/pickup.rs` — `PickupNote` and its lifecycle.
- `src/window.rs` — `PreparationWindow`: time budget, pickups, urgency,
  sufficiency of the remaining time.
- `src/setup.rs` — `VerificationCheck`, `SetupVerification` and the readiness
  verdict.
- `src/laws.rs` — properties that span several operations.
- `app/lib.rs` — the floating-point parts (anticipation signals, preemptive
  actions, readiness and usage fractions) and `Anacrusis`, which combines them
  with the verified window and checks.
