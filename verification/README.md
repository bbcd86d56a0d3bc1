# gg worker mutations

The verified core of a GUI's worker for the `jj` version-control system.
Repository mutations (abandon, describe, rebase, bookmarks and tags, fetch,
...) are carried out by running the `jj` command line; a hunk of a diff can be
moved between revisions inside the repository.

- `src/` is verified with Verus.
  - `messages` — the mutations and the identifiers they carry.
  - `protocol` — a mutation as a conversation with its driver: checks, then
    commands, then a reload; `Plan::next_step` says what to ask next from the
    replies so far, and the laws of the conversation are proved there.
  - `mutations_cli` — each mutation's plan (checks, `jj` arguments, report).
  - `mutations` — backing out and moving a hunk, step by step.
  - `hunk` — applying a unified-diff hunk to a file's content.
  - `cli_executor` — the `jj` command line and what a finished process yields.
  - `text` — lines, trimming and joining on characters.
- `app/` runs `jj` and carries out the library's plans against a workspace
  session, described by the traits `Workspace` and `RepoWorkspace`
  (resolving revisions, immutability checks, status and header formatting,
  transactions). Backing out a revision and moving a hunk are done there on
  the repository's store and transactions with `jj-lib`. The session itself
  belongs to the host application and implements those traits.
- `tests/` exercise the library.
