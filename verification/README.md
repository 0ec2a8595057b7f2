# rs-commons

The verified core of a small process engine. A process is a flow of
elements joined by routes; a task runs through a flow, one worker at a time.

- `src/` is the library, verified with Verus. Each database or queue
  interaction is an action handed out by a run (`CreateTaskRun`,
  `WorkerProcess`, `RouteAfter`, `HandlerRun`, `SaveOutVariables`, ...): the
  run decides, the caller performs the action and hands back what came of it.
  `src/foreign/` holds the calls into `std`, `uuid`, `chrono` and `rhai` whose
  contracts are trusted.
- `app/` is the program around it: the Postgres pool and migrations, the AMQP
  queue, the HTTP API, and the drivers that perform the runs' actions.
- `tests/` runs the library on concrete values.
