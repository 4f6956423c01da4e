# git_diff_buffers

The decisions behind a list of diff buffers in an editor, verified with Verus: which files of a
repository are listed for a diff base, with which status, and how the buffer of each is loaded.
The crate also holds the vocabulary of git operations that can stop half-way.

- `src/operation.rs`: git operations, their state, errors and outcomes.
- `src/path.rs`, `src/diff.rs`, `src/status.rs`: paths, diffs and statuses as a repository
  reports them, and how the status against HEAD and the difference from a merge base go together.
- `src/base.rs`: what files are compared with, and the diff that this asks of a repository.
- `src/load.rs`, `src/comparison_file.rs`: the load of one buffer as a state machine, and the
  file that a snapshot's buffer shows.
- `src/event.rs`, `src/model.rs`, `src/list.rs`: the list itself. `model.rs` says in mathematical
  terms what the operations of `list.rs` do.
- `src/laws.rs`: what holds of the library as a whole. `src/select.rs` holds lemmas for it.
- `app/`: channels, tasks and the services of the editor around the library.

Outside the proofs stand `std::path::PathBuf`, which is only carried, and the string-keyed hash
containers of vstd. A status comes with what the git backend says of it (deleted, changed, staged,
unstaged), and so do the statuses that a merge makes up: the library takes these answers as given
and holds for every combination of them.
