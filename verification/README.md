# ralpher

ralpher cooks a development plan to completion: it picks the next open task,
hands it to an agent, runs the validators, holds the changes against a policy
and commits what passes, iteration by iteration.

`src/` is the library, verified by Verus. It computes; it touches no file, no
process and no terminal. What it wants done it returns as a value, and what came
of it it is told:

- `run`, `iteration`: the run engine. An iteration is a state machine from reply
  to next action; effects on files are listed and performed by the caller.
- `engine`, `cli`: the commands, each a decision on what was loaded.
- `workspace`, `porcelain`: git, as commands to issue and replies to read.
- `policy`, `glob`: what changes an agent may make.
- `task`, `prd_parser`, `config`, `event`, `validation`, `prompt`: the plan, the
  settings, the log, and what is said to agents and read from validators.
- `tui`, `tui_input`, `tui_view`, `screen`: the terminal interface, from keys and
  reloaded state to text and colours.
- `text`, `search`, `letters`, `number`, `path`, `utf8`: text.

Functions named `law_..` state what holds across several operations;
those on iterations and on the interface stand in `iteration_laws` and `tui_laws`.

`app/` is the program: arguments, files, git, agents and the screen. `tests/`
runs the library on concrete values.

## Keys

| Key | Action |
|-----|--------|
| `Space` | Pause/Resume, or start a run |
| `a` | Abort |
| `r` | Retry iteration |
| `s` | Skip current task |
| `l` | Toggle log source |
| `d` | Open diff summary, `Esc` closes it |
| `n`, `e`, `x` | New task, edit, delete |
| `Tab` | Select the next task |
| `m` | Migration menu |
| `f` | Refresh |
| `q` | Quit |
