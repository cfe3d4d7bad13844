# stages-thermo

A staged-separation (distillation) column library: McCabe–Thiele and
Ponchon–Savarit constructions on binary equilibrium and enthalpy–composition
curves, with thermodynamics from `vle-thermo`.

## Layout

- `src/` — the verified library (Verus): the error type and its messages,
  the condenser and phase vocabularies, component loading from vle-thermo's
  bundled database, the composition, curve-shape and condenser checks that
  guard every construction, and the Python-facing name parsing and exception
  mapping. Contracts state each result, error texts included; `law_*` proof
  functions state the properties that span calls.
- `app/` — the floating-point engine (curves, constructions, column model,
  thermodynamics adapter) and the PyO3 bindings, calling the library for
  every decision it verifies.
- `tests/` — tests of the library's public functions.
