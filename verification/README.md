# zat

A templating tool: it copies a repository of template files to a target
directory, asking the user for the values of the variables the repository
defines and replacing their tokens in file names and in the content of
template files (those ending in `.tmpl`).

- `src/` is the library, verified with Verus: the configuration of a run, the
  choices and scopes that select variables, the expansion of values by their
  filters, tokens and their replacement in names and template content, the
  layout of the output, the steps of each command and what follows each
  outcome, the bootstrap repository, and every error with how it is shown.
- `app/` is the `zat` command around it: argument parsing, the terminal, the
  file system, git and the shell hook.
- `tests/` exercises the library.
