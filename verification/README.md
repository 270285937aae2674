# gmsv_serverstat

A Garry's Mod server module that reports system resource usage through a
Prometheus `/metrics` endpoint and a `serverstat` Lua API.

- `src/` is the verified library (Verus): the exporter's lifecycle and bind
  address (`exporter`), CPU counts, process counters and the CPU refresh
  cache (`stats`), the bookkeeping of asynchronous requests and their `Tick`
  hook (`async_queue`), the layout of the Lua tables (`api`) and the realtime
  timer (`realtime`). Laws about them are stated and proved as proof
  functions next to the code they speak of.
- `app/` is the module itself: Lua bindings (`gmod`), readings of the
  operating system (`sysinfo`), the Prometheus exporter (`metrics`,
  `metrics-exporter-prometheus`) and the worker thread (`crossbeam`).
- `tests/` exercises the library on concrete values.
