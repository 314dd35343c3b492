# process_refresh_plan

Plans for refreshing what is known about the processes of a system: which processes to visit,
which of their fields to collect, what to do with CPU samples, and how to commit the result. The
decisions are pure code, verified with Verus.

- `src/` is the library. Each plan has a view, and each function states over it what it returns.
  The functions named `law_..` are proofs of what holds of the plans as a whole.
- `tests/` runs the library on concrete requests.
- `app/` connects the library to `bitflags` and to the clock of the system.
