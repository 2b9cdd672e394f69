# stellar_structure

Integration of the stellar structure equations by adaptive Cash-Karp steps.

- `src/` is the verified library (Verus): the microphysics bundle, the rules that
  decide which fault a refused composition or a non-physical shell state reports,
  the adaptive step controller that decides after every trial step whether the
  integration advances, retries with a smaller step, finishes or fails, and which
  records the model that pairs mass coordinates with shells.
- `app/` holds the floating-point side: physical constants, the equation of state,
  opacity and energy generation laws, shells and their derivatives, the Runge-Kutta
  stages and the loop of `integrate`, which performs what the controller decides.
- `tests/` exercises the library.
