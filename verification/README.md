# kornetti

The core logic of a self-hosted deployment platform, verified with Verus:
the commands it sends to servers over SSH, the parsing of what comes back,
proxy configuration, cloud-provider requests and replies, and the job and
scheduling state machines.

- `src/` is the verified library. Each public function states what it
  returns in its `ensures`; laws that relate several functions stand as
  public proof functions named `law_*`. Calls into outside crates (uuid,
  chrono, chrono-tz, base64, rand, russh-keys, dashmap, serde_json) go through small trusted
  wrappers whose doc comments say what their contracts claim.
- `app/` is the unverified shell around it: SSH sessions, HTTP clients,
  YAML and JSON forms, the retry waits, the floating-point metrics and the
  drivers that run the library's jobs.
- `tests/` holds the tests, run against the compiled library.
