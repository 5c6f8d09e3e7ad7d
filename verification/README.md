# dejavu_similarity_api

The request handling of the Dejavu similarity API as a Verus-verified library, with the
HTTP/WebSocket service around it.

- `src/` — the verified library:
  - `text` — decimal rendering and std-compatible unsigned parsing (proved to round-trip),
    Unicode white-space trimming, prefix and equality tests.
  - `clock` — reading the system clock before or after the epoch; milliseconds since it.
  - `health` — RFC 3339 time stamps of clock readings, health report entities, uptime formatting (`1d 2h 3m 4s`), overall status.
  - `errors` — the API error and its answer (status, message, kind).
  - `detection` — how replies of the similarity services become detections or error messages;
    concurrency and timeout settings.
  - `similarity` — validation, authentication and responses of the similarity endpoints.
  - `transcription` — the upload form and its checks, the WhisperX exchange, the result.
  - `job` — the background transcription job as a state machine, with the proof that a job
    publishes exactly one status update.
  - `noise_removal` — FFmpeg filter chains, command lines and output file names, and the
    basic and advanced cleaning runs as a state machine (with the fallback to the basic chain).
  - `export` — rows of the similarity report, air times included.
- `app/` — axum handlers, reqwest clients, FFmpeg and file work, serde forms of the types.
- `tests/` — tests of the library.
