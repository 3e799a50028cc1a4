# ldk-server-mcp

An MCP (Model Context Protocol) server that exposes the operations of an
[LDK Server](https://github.com/lightningdevkit/ldk-server) node as tools for
AI agents. It speaks JSON-RPC 2.0 over stdio, one message per line.

## Layout

- `src/` is the library, verified with Verus. It decides what the server
  answers and what it sends to the node:
  - `protocol`: JSON-RPC messages and how a request is routed
    (notifications are never answered, unknown methods are refused);
  - `mcp`: the answers to `initialize` and the results of tool calls;
  - `json_args`: the arguments of a call, as the server reads them;
  - `tools`: the registry of tools, each tool's input schema, and the
    handlers that turn arguments into requests to the node
    (`tools::laws` proves that refusals follow the published schemas and
    that every tool is found by its name);
  - `config`: which base URL, API key and certificate the server uses;
  - `text`: hex encoding and decimal numbers.
- `app/` is the program around it: command line, stdin/stdout, reading
  configuration files, JSON (de)serialization and the calls to the node
  through `ldk-server-client`, putting the library's pieces of an answer
  (the next page token, the pathfinding scores) into the JSON the node's
  reply becomes.
- `tests/` runs the library on concrete inputs.
