# payments_api

A payment intake service: clients submit payments over HTTP, a worker
forwards each accepted payment to whichever of two payment processors is
healthy, and summaries report how many payments a time window holds and
what they add up to.

- `src/` is the library, checked by Verus. It holds the HTTP value types,
  the choice of processor from cached health reports, the health-check
  rounds, the payment-creation workflow, the channel listener's decisions,
  the sorted-set scores of payments and the request/response bodies. Each
  workflow is a state machine: the driver reports what happened, the
  library answers with what to do next, and the laws about those machines
  are proof functions next to them.
- `app/` is the service binary: Redis, reqwest, actix-web and Postgres
  calls, serde shapes of the bodies, and the loops that drive the
  library's workflows.
- `tests/` runs the library on concrete values.
