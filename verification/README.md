# async-global-executor

A global executor built on top of async-executor and async-io, split in two:

- `src/` is the verified library. It decides how a configuration is sealed
  (the thread count read from the environment variable, the configured bounds,
  the number of CPUs), how many executor threads to start and when a thread may
  stop (`pool.rs`, a bookkeeping state machine whose invariant keeps the number
  of threads within the configured bounds), and how worker threads are named.
  Every function there carries a contract proved by Verus, except two small
  trusted wrappers whose contracts are taken on trust: `available_cpus`, which
  calls `num_cpus::get`, and `quoted`, which formats a string with std's
  `Debug`. The laws of the pool and of the configuration are stated as proof
  functions.
- `app/` is the runtime around it: the global and thread-local executors, the
  worker threads and their shutdown channels, reading the environment, and the
  `executor-trait` integration. It asks the library what to do and performs it.

`tests/` exercises the library on concrete values.
