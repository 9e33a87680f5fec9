# compio-send-wrapper

A wrapper type that lets a value of any type move between threads while the
value stays reachable only from the thread that created the wrapper.

- `src/` is the verified library. `SendWrapper<T>` holds the value and the
  identity of its owner thread; every guarded operation takes the identity
  of the calling thread and its contract states what the check decides.
  `src/laws.rs` holds the properties that span operations.
- `app/` is the thread-facing side: it reads the calling thread's identity,
  makes the wrapper `Send` and `Sync`, panics where the library refuses an
  access, checks drops, and implements `Future`, `Stream`, `Clone` and
  `Debug`.
- `tests/` exercises the library on concrete values.
