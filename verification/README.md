# secpar

A command-line client for AWS Secrets Manager (`sec`) and Parameter Store
(`par`): list, get, describe, create and delete secrets; list, get, create,
delete parameters and apply a YAML spec file of `name:value` entries.

## Layout

- `src/` — the library, verified with Verus.
  - `cli/flow.rs`: the course of every command as a state machine. `Flow::start`
    gives the first step; `Flow::step` takes the reply to the last action (a
    service reply, a menu choice, a confirmation, the spec file) and gives the
    next step. Its contract is the transition function `next_spec`.
  - `cli/laws.rs`: what holds of every course: deletes only after a yes
    (unless forced), a given name is used as is, a failed call ends the command
    with `NotFound`, `CreateFail` or `AwsSdk` and the service's message, an apply puts the valid entries in order and stops at
    the first failure, a listing of secrets or parameters shows every page, an
    unforced secret delete keeps a seven-day recovery window.
  - `cli/sec.rs`, `cli/par.rs`: what each service reply comes to.
  - `specs/`: the spec file and the plan of puts it asks for.
  - `ui.rs`: notices, prompts, selection and the `comfy_table` tables.
  - `text.rs`: decimal numbers, joins and the split of an entry at its first colon.
  - `errors.rs`, `opt.rs`: errors and command-line options.
- `app/` — the program: command-line parsing, AWS SDK calls, terminal prompts,
  spinners and file reading; it performs each step the library decides.
- `tests/` — tests of the library on concrete values.
