# zluda_exstar

The decision logic of a ZLUDA runtime fork that runs Shining3D's EXStar Hub
on AMD GPUs, written in Verus and verified against its contracts.

## Layout

- `src/` — the verified library.
  - `allocations` — the device-allocation table and its lookups.
  - `cls` — context-local storage with its debug and compatibility switches.
  - `cuda`, `driver`, `runtime`, `settings` — driver error codes and texts,
    the decisions around the HIP calls, launch sequencing and the debug
    switches.
  - `nvrtc` — recognising NVRTC libraries and rewriting compile options.
  - `exstar`, `einscan`, `hooks`, `modules`, `payload`, `qt`, `window`,
    `text` — the redirect layer's compatibility rules: process identity,
    the process manager's cleanup, process and thread exits, library hooks,
    Qt payload decoding, the Qt and window hooks, and shared text helpers.
  - `launch`, `watchdog` — the creation of a child process and the scan
    service watchdog's thread dump, as state machines whose actions the
    caller performs.
- `tests/` — tests of the library on concrete values.
- `app/` — the process side: the environment, trace files, locks around the
  process-wide state, and the hook bodies that hand the library plain values.
