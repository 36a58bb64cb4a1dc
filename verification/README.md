# chord_ws

Chord manages a workspace made of several git repos. A manifest (`chord.yaml`) lists the
repos: remote, name, revision and optional location. A lockfile (`chord.lock.yaml`) pins
each repo to a commit hash.

The library (`src/`) is verified with Verus. It holds what the commands decide: the
manifest edits (`manifest add/remove/modify`, applying a lockfile), the lockfile as a map
with unique names, the checks of a manifest entry (remote URL, revision, name, location),
where each repo goes in the workspace, the search for the workspace's top directory, and
the steps of the git work on a repo (resolving it to a commit, reading its status, running
a command in it) as jobs that take the reply to each git operation and decide the next one.

`app/` is the `chord` program around it: command-line parsing (clap), YAML files
(serde_saphyr), the git operations themselves (git2, `sh`), and terminal output.
