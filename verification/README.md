# rig_tasks

Long-running tool calls for agents, as a verified library. A tool call on an MCP server may end at
once, turn into a task on the server, or ask the application for input first. The library holds the
rules for all three: how arguments and metadata are prepared, how results are decoded, when a task
is polled and when it is given up, how notifications and input rounds are handled, and how a
deferred call is described so that another process can pick it up again.

## Layout

- `src/` is the library. Every function states what it does in its contract, over plain models of
  the types (`X` has the model `XView`). Properties that span functions are public proof functions
  next to the types they speak of.
- `app/` runs the library: sockets, timers, tasks and serialisation. It performs the actions that
  the state machines of the library ask for and hands the outcomes back.
- `tests/` runs the library on concrete values.

The state machines are `wait` (one task handle), `drive` and `task_table` (the tasks of a run),
`task_driver` and `mrtr` (deferred calls), `transport` (one request), `catalog` and `handler` (the
tools of a server) and `listener` (notifications). Time is passed in as a `Duration` since a fixed
start, so that every decision is a function of its arguments.

## What is not proved

Calls into `serde_json`, `chrono` and `rmcp`, and the text of a `std` duration, go through small
functions whose contracts are taken as given. Each of them says in its comment what is claimed of
the outside function.
