# komodo_logic

The decision logic of a container-deployment control plane (a core server and
its periphery agents), written in Verus and proved against its contracts.

## Layout

- `src/` — the verified library, one module per concern:
  - `execute` — execute requests: what each targets, how its update record
    starts, and the permission checks that run before it exists;
  - `alerter`, `auth` — alert routing, API-key authentication;
  - `gitops`, `gitops_sync`, `gitops_stack` — pull-based GitOps: source
    grouping, safe sync application, Stack reconciliation as a state machine;
  - `rollout`, `docker`, `compose`, `command` — rolling service updates,
    registry login and token redaction, compose and docker command lines,
    command outputs and logs;
  - `connection` — the periphery's outbound connection loop and retry logging;
  - `listener`, `stack_read`, `stats` — webhook branch checks, what Stack reads
    show, disk selection;
  - `text`, `sort`, `report` — strings, sorting and error chains.
- `tests/` — tests of the library, run against the compiled crate.
- `app/` — a small command-line host that performs the I/O the library asks
  for (processes, the Docker API, system statistics, concurrency limits).

Calls into outside crates are made by small trusted wrappers whose contracts
are stated next to them; everything else is proved.
