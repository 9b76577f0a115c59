# jenkins_cli

A Jenkins command-line client and MCP server whose logic is verified with
Verus.

- `src/` is the verified library: the status ladder every HTTP response goes
  through, the Basic auth header, how environment variables and the config
  file combine into credentials, request paths, the trigger / wait state
  machine (queue item, then build), progressive console-log following, the
  console-log tail the MCP tools return, the JSON shapes the tools answer
  with, and the rule that turns any JSON value into printed lines.
- `app/` is the program around it: argument parsing, prompts, the config file,
  HTTP requests, sleeping between polls, terminal colors and the MCP server.
  It reads and sends, and asks the library what to do next.
- `tests/` runs the library on concrete values.
