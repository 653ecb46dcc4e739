# suspension_core

Quarter-car suspension analysis. The library in `src/` is verified with
Verus; the HTTP service in `app/` (Rocket + PostgreSQL) is ordinary Rust.

Physical quantities cross into the library as IEEE-754 binary64 bit
patterns (`f64::to_bits`). The library orders them with an exact model of
binary64 comparison and, on that basis, proves:

- `ieee` — `<`, `<=`, NaN test and closed-range test on bit patterns;
- `pareto` — the Pareto filter of a spring/damper sweep and its laws
  (front within the sweep, nothing on it dominated, non-empty for a
  non-empty sweep, idempotent);
- `sweep` — the spring-major order of the sweep grid;
- `road` — road profile checks and the seeded phase generator of ISO 8608
  roads;
- `params`, `bike`, `request`, `simulation` — request checks, defaults and
  clamps of the simulate / FRF / sweep endpoints, the whole simulation
  request check in its order, and the reduction of a two-axle bike;
- `vehicle`, `moto` — class tables, defaults and checks of the vehicle and
  motorcycle parameter derivations;
- `error` — every refusal and its message.

Integration (RK4), ISO 2631 weighting, the transfer function and all other
floating-point arithmetic live in `app/physics.rs`.
