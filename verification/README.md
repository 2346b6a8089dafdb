# nudm_sdm

The request handling of the Nudm_SubscriberDataManagement HTTP service
(`/nudm-sdm/v2`), as a Verus-verified library, and the HTTP glue around it.

`src/` (verified):

- `template`, `route`, `paths`: the path templates of the 33 routes, the
  grammar of the paths they accept, and a matcher proved to decide it and to
  read back the only parameter values that spell a path.
- `operation`, `dispatch`: the 35 operations in the order requests are tried
  against them (the service's table, with `GetSharedData` before
  `GetDataSets` so that `GET /shared-data` reaches it); choosing the
  operation (or 404 / 405) and naming it.
- `auth`, `pathparam`, `admission`: the scope check, percent-decoding of path
  parameters, and the first steps of serving a request in the service's order.
- `queryplan`, `query`: which query parameters each operation reads, selecting
  their values, and resolving them (a value that does not parse leaves its
  optional parameter absent).
- `checks`: the 400 answers for data-model path parameters, headers and body.
- `reply`: the status code and content type of each kind of reply.

`app/` holds the hyper service that reads requests, calls the library and the
implementation, and writes the answers.
