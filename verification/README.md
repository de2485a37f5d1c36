# git_ref

Commands on raw Git refs: `fetch` brings refs or commits from a remote, `list` shows what was
fetched, and `push` sends one revision to one ref of a remote.

The library in `src/` makes the decisions and is verified with Verus. A command is a sequence of
steps; each step asks for one piece of work outside the library and takes the reply.

- `push`, `fetch`, `list`: the three commands, their steps and their contracts
- `command`: the commands as one
- `push_laws`, `fetch_laws`, `list_laws`: what holds of every run of a command
- `ids`, `target`, `names`, `text`, `error`: object IDs, ref targets, names, text and errors

What gix and itertools compute comes from them, behind small functions whose contracts are stated
and not proved: `gix_kind`, `gix_hex` and `gix_kind_name` in `ids`, `is_gix_full_name` in `push`,
and `join` in `text`.

`app/` parses the command line and runs the steps against a repository and a terminal that the
surrounding program provides.
