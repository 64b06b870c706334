# vantis

The logic of a media player's plugin platform and integrations, written in
Verus: every function in `src/` carries a contract (`requires` / `ensures`)
that the verifier proves, over mathematical models of the data (`Seq`,
`Map`, `int` and the views of the library's types).

## Layout

- `src/` — the verified library, one module per area:
  - plugins: manifests, identity, lifecycle, errors, versioning and
    compatibility, dependency resolution, signing, the marketplace and its
    analytics, auto-updates, the SDK's messages and debugging;
  - integrations: URL building and response reading for podcasts (iTunes,
    RSS), Google Drive, Dropbox, YouTube, Spotify, TMDB, Trakt and
    Filmweb, webhooks, the IPC guard and the integration manager;
  - live streaming and screen recording: broadcasters, streams, chat and
    its moderation, viewers, recording sessions and their settings;
  - security and performance: zero-trust decisions, the memory pool, lazy
    loading, GPU and SIMD choices, telemetry.
- `src/clock.rs`, and a few small wrappers elsewhere, are the only places
  where the library calls the system or an outside crate; each states in
  its contract what is assumed of that call.
- `tests/` — ordinary Rust tests that run the library.
- `app/` — ordinary Rust around the library: HTTP requests and JSON,
  files on disk, the local time zone, the platform, and the
  floating-point profiling dashboard.

## Checking

Verus verifies `src/`; the tests and `app/` build against the compiled
library like any other crate.
