# beetle

The beetle platform drives small e-ink devices: a registrar hands out device ids and keeps the
rendered state of every device, a renderer rasterizes layouts and pushes them onto device queues,
a web api lets users queue messages, and an updater daemon keeps the platform's own programs at
their latest release.

This crate holds the platform's rules as a library verified with Verus:

- `redis_reader`, `mock_reader`, `mock_device`, `redis`: the readers of the redis wire protocol
  used by devices, with round-trip laws in `redis_reader_laws` and `collector_laws`, and what the workers make of the
  responses they read.
- `registrar`: device state transitions and their layouts, access and ownership rules, device
  schedules, the checks and storage of users' vendor tokens, the id pool, the rounds of the
  worker and what it does around each job.
- `rendering`: layouts, their geometry, the render queue's types and the renderer worker's
  decisions.
- `api`, `cli`, `reporting`, `schema`, `vendor`, `config`: the decisions of the web api and the
  command line tool, and the records and schemas they share.
- `updater`: the updater daemon's release machine, its version rules and its api.
- `tokens`: the sealed tokens (signed json web tokens) that carry sessions, stored vendor
  tokens, and queued jobs and renders.
- `text`, `time`, `wchgen`: texts, instants, and the html minifier.

`app/` holds the programs around the library (the updater daemon, a device mock, the renderer
worker, a layout rasterizer and the minifier): their file, network and process work, and the
serialized forms of the library's types. `tests/` exercises the library on concrete values.
