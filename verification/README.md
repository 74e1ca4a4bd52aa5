# codex-agent-core

Coordination core for a set of cooperating agents: capabilities, tasks, a
dependency-aware priority scheduler, an agent registry, a coordinator that
hands scheduled tasks to suitable agents, and three built-in agents (code,
analysis, test).

## Layout

- `src/` is the verified library. Every operation states its behaviour in
  `requires`/`ensures` over mathematical views (`Seq`, `Map`, ghost structs),
  and Verus proves the code against it.
  - `capability.rs`, `text_map.rs`, `task.rs`, `agent.rs`, `ids.rs`,
    `error.rs`: the data model.
  - `scheduler.rs`: ready and waiting tasks, highest priority first, earliest
    first among equals; a task waits until its dependencies complete and is
    refused when one has failed.
  - `manager.rs`: the registry of agent records.
  - `coordinator.rs`: validation, agent selection and the execution
    strategies; dispatched tasks are queued for the caller to run.
  - `agents/`: the built-in agents and the work their operations do.
  - `standalone.rs`: the minimal registry and task list.
  - `laws.rs`: properties that span several operations, proved.
- `tests/` exercises the library on concrete values.
- `app/` is the asynchronous runtime around the library (tokio, the `Agent`
  trait, JSON reports, serde forms of the types, the demo programs).
