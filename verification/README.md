# grafbase_core

Verified core logic of a GraphQL gateway and its CLI, written in Verus.

`src/` is the verified library:

- `lexical`, `order`, `search`: the byte-wise order of texts (as `str` compares), its
  lexicographic extension to pairs and triples, and a halving binary search for the
  partition point of a predicate.
- `wrapping`, `schema`: the schema that operation checks run against, with fields,
  arguments and interface implementations kept sorted (a type invariant) and looked up by
  binary search; GraphQL type rendering.
- `coercion`: input coercion errors, their locations and messages, and value kinds.
- `enum_seed`: how an enum value in a subgraph response is decoded and reported.
- `subgraph_context`: the bookkeeping of one subgraph request.
- `hooks`: hook names, the hook set a component declares, and the hook-call decisions.
- `publish`, `completions`: the decisions of the `publish` and `completions` commands.

`app/` holds what needs I/O or other crates' traits: clap commands and shell completion
output, the `publish` command's file, stdin and backend plumbing, serde visitors, and
conversions from `serde_json`, `cynic_parser`, `enumflags2` and `http` values.

Not here: the calls into the wasm hooks component (resources, typed function lookup,
post-return) and the asynchronous finalization of a subgraph request (the hook call with
the executed-request record, and metrics), which need the gateway's own runtime,
telemetry and component-loader crates. The library holds the decisions they take:
`HooksComponentInstance::get_hook` and `record_call`, and
`SubgraphContext::into_executed_request` and `duration_attributes`.
