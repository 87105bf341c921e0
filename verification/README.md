# nkcore

Core helpers with their behaviour proved by Verus.

- `src/base.rs`: `default`, `out_var` and `out_var_or_err`, which build a value from its
  `Default` implementation through an initializing closure.
- `src/api_name.rs`: the readable name of a function or method call (`Type::method::<A, B>`),
  built from a description of the call expression and the type names the compiler resolves.
- `src/debug.rs`: the diagnostic context (`{name} failed`, file and line) attached to the error
  of a failed call.
- `src/app_event.rs`: the decisions of the closure-based `winit` event-loop adapter.
- `src/capture.rs`: the frame-pool decisions of a capture session.
- `src/process_group.rs`: the decisions of the once-only process-group setup.
- `src/text.rs`: string building blocks (decimal numbers, joining, trimming).

`app/` holds what runs outside the verified crate: the scope guard, the executable directory,
the per-thread cache macro, compile-time type names, the `winit` adapter loop, Windows capture
sessions, raw window handles and the process-group setup. Each takes its decisions from the
library.
