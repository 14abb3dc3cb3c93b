# thrindex

The thrindex neuromorphic SDK: a Graph IR compiler to `.thx` artifacts, a
behavioral spiking simulator, an AKD1500 backend pre-flight, a conformance
harness, and fixed-point numerics.

The library under `src/` is verified with Verus: every public function states
what it returns in its contract, and the properties that span functions are
proved as `law_*` proof functions. `app/` is the `thrindex` command line and
everything that needs floating point, JSON, files or threads: the simulator's
dynamics, the float metrics and their aggregates, compilation's continuous-time
constants, and reading and writing JSON. It leaves the integer decisions
(validation, error choice and order, certification, renderings) to the
library.

- `numerics/` — saturating `Q<INT, FRAC>` fixed-point arithmetic with
  round-half-to-even, and its algebraic laws.
- `text.rs` — decimal, hexadecimal and debug renderings, and parsing.
- `codec.rs` — base64, CRC32 and SHA-256, called through trusted wrappers.
- `artifact/` — format version and CRC32 integrity checks, layer
  classification, resource totals.
- `compiler/` — Graph IR validation, delay codecs and target caps, the
  UTC timestamp.
- `sim/` — the simulator's loading decisions and error messages.
- `akida/` — AKD1500 validation, pre-flight, and the device runtime's
  command line and batch checks.
- `conformance/` — envelopes, exclusions, exact spike-count metrics, the
  per-sample run protocol, the certification decision and verdicts, and the ratification command line and fingerprint.
- `cli/` — `targets`, `doctor`, `run` and `bench` decisions and renderings.

When the executable is started under the name `ratify_envelope` it runs the
envelope ratification measurement instead of the `thrindex` command line.
