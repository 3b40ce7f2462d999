# gist

A GitHub Gist client for the command line, with an interactive terminal browser. What the
program decides and computes is a library verified with Verus; the terminal, the network and
the file system stand around it.

## Layout

- `src/` is the verified library:
  - `text`, `sort`, `output`: strings, stable sorting, lines of terminal output
  - `gists`, `api`, `error`: gists, requests and answers, failures and how they are reported
  - `cli`, `commands`, `editing`: what the command line asks for, and the commands
  - `tui`: the browser. `model` says how each step changes the state, `app`, `events` and
    `editor` carry the steps out, `view` says what the panes show, and `laws` states what holds
    of the browser as a whole
- `app/` is the program: argument handling, HTTP, the terminal and the text editor.
- `tests/` runs the library on concrete values.

A gist is secret unless `-p` is given. A token comes from `gh auth token` or, failing that, from
the variable `GH_GIST_TOKEN`.
