# openwarp

The verified core of the OpenWarp terminal, written in Verus.

- `shell`: POSIX quoting of arguments and the command lines run on remote
  hosts, with a proof that a shell reads every such line back as exactly the
  intended argument vector. The proof is against a model of how a POSIX
  shell splits a line into words (single quotes, backslash escapes outside
  quotes, blanks between words); the model refuses any other shell syntax.
- `git`: where git runs for a repository (locally or on a remote session) and
  how a remote command's exit status and output map to a result.
- `markdown`: which files the viewer renders as Markdown, judged by the
  path's final component; the library states that component for paths that
  separate components with `/` and end in a plain name.
- `slash_commands`: which slash commands a terminal offers in its session,
  when they are recomputed, and how a query's prefix covers a command name.
- `ai_client`, `server_api`, `hydrator`: the AI client and server API of this
  build, which has no cloud backend and refuses every remote call.
- `code_review`: the per-file diff invalidation task.

`app/` holds what is not verified: the program that lists which sample paths count as Markdown, floating-point
ranking of menu matches, and the serde form of agent messages.
