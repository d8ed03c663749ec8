# numerics_ode

Solvers for ordinary differential equations `dy/dx = f(x, y)`: forward Euler,
classical Runge-Kutta (RK4), two-step Adams-Bashforth and adaptive
Dormand-Prince, for scalar equations and for systems.

- `src/` is the verified library: the step drivers. `fixed_step` takes a given
  number of uniform steps (and the Adams-Bashforth schedule with its start-up
  step); `adaptive` runs the accept/reject loop of an adaptive method under a
  budget of attempts. Their contracts state how many states are recorded,
  which step rule produced each of them and when a run stops.
- `app/` holds the solvers themselves. Their step rules are `f64` arithmetic,
  which Verus does not take; each solver hands its rule to a driver as a
  closure.
- `tests/` runs the drivers on integer and floating-point step rules.
