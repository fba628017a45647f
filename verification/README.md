# Workflow step editor core

A desktop recorder captures clicks and key presses across applications,
turns each captured event into an editable step with three screenshots
(full screen, window crop, element crop), and stores every recording as
plain JSON plus PNG files. This crate holds the recorder's logic as a
library verified with Verus; the `app/` crate is the macOS shell around it.

## Layout

- `src/domain/` — the schema v1 types, the key-chord classifier and the
  step-title parser.
- `src/permissions.rs` — permission reporting over a recording adaptor of
  the native source, with the rule that nothing
  touches the Accessibility API before Input Monitoring was requested.
- `src/capture/` — the host-clock timestamp rule, the frame broker
  (pre-event and post-event frame selection), the bounded capture queue,
  crop encoding, the worker's bounded wait, the event-tap field mapping,
  the failure latch and the stream-manager and pipeline decisions.
- `src/recording/` — timestamp formats, the store's rules (id
  confinement, canonical shot paths, event-log splitting, listing rows
  and order, the manifest's file text), the session worker, the
  recording lifecycle state machine and the manifest edits.
- `src/commands.rs` — the path-free rendering of command failures.
- `tests/` — the library's tests.
- `app/` — file I/O, threads, the floating-point crop geometry, the
  serde shapes of the JSON payloads, and the macOS platform code and
  command surface (compiled on macOS only).
