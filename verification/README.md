# Home Energy Manager

The decisions behind a home battery manager, as a library verified with Verus.

- `src/sanitizer/` makes the readings of an unreliable data adapter trustworthy:
  range, speed-of-change, balance and growth checks, and what is carried forward
  where a register block or a battery module could not be read.
- `src/state_machines/` holds the automations: timed export, load and temperature
  limiters, discharge floor, auto-winter, adaptive charge, Cosy and Agile
  tariffs, and who may drive the discharge registers.
- `src/startup.rs` and `src/page.rs` read the command line, restore the state from
  the settings and build the page that is shown where the server cannot start.
- `app/` is the process around it: logging, settings on disk, tasks and I/O.

Measured quantities are whole billionths of their unit (`src/quantity.rs`), so
every comparison in a contract is exact. Public proof functions named `law_*`
state what holds of the library as a whole.
