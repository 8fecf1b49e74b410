# policy_mcp

The rule tools of a policy MCP server, verified with Verus.

The server offers four tools over a policy rule language: `validate_rule`,
`explain_rule`, `evaluate_rules` and `list_operators`. Parsing and evaluating
the language is the policy engine's work; `src/` holds what the server itself
decides, with contracts proved by Verus:

- `model.rs`: the parsed rules as plain values (rule set, rules, nested
  condition groups).
- `validate.rs`, `explain.rs`, `evaluate.rs`: the answer of each tool, given
  what the engine produced; `explain.rs` breaks nested conditions down
  recursively.
- `operators.rs`: the comparison operators and the order of the catalogue.
- `tools.rs`: the server's instructions and the text of a tool reply.
- `laws.rs`: properties that span the tools.
- `text.rs`, `json.rs`: the two trusted items (`str::to_lowercase`,
  `serde_json::Value`).

`app/` is the server program: stdio transport, the engine calls, the JSON
(de)serialisation of requests and answers.
