# rinhudos_backend_2025

A payment backend with two payment processors, whose decisions are verified with Verus.

* `src/` is the library: the circuit breaker over the two processors (`circuit`, `health`),
  the way of one payment from the queue to a processor (`orchestrator`), the master and the
  slaves behind the HTTP intake (`worker`, `api`), and a plain queue consumer (`consumer`).
  Each part is told of events and asks for actions. The library reads the clock (`clock`),
  and performs no other input or output.
* `app/` performs the actions: HTTP, the queue server, channels and locks.
* `tests/` runs the library.
