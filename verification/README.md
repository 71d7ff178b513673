# oui

An immediate-mode user interface context, verified with Verus.

- `src/types.rs`: geometry, event flags, item states, the handler trait, `ui_max`/`ui_min`.
- `src/item.rs`: the item record and its fresh value.
- `src/model.rs`: the abstract state of a context and every operation on it as a spec function.
- `src/context.rs`: the context and its operations, each proved against the model.
- `src/laws.rs`: properties that span operations (read-back of setters, the button-0 capture protocol, the data offsets recorded by successive allocations, the previous frame's buttons staying up, and more).
- `app/lib.rs`: an adapter that lets plain functions serve as handlers.
