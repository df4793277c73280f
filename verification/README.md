# jsonrpc-usecase

Use cases as JSON-RPC 2.0 methods: input transformation and validation,
request headers and contexts, use-case events, and the decisions behind the
`#[UseCase]`, `#[UseCaseEventConsumer]` and `UseCaseInput` macros.

The library in `src/` is verified with Verus: every public function carries a
contract over a mathematical model of its data, and the properties that relate
several operations are stated and proved as public proof functions.

- `case`, `naming`: camelCase and snake_case conversion of names and of the
  keys of JSON values, with round-trip laws.
- `input`: the `UseCaseInput` trait, violations and their field paths, and the
  string, integer and collection transformers.
- `guard`, `context`, `event`, `config`, `execution`, `registration`: request
  headers with case-insensitive lookup, the per-thread context stack, event
  payloads and consumer selection, service configuration, execution errors and
  the duplicate-method check.
- `attribute`: what the macros make of their arguments and of the items they
  are applied to, as plans with exact contracts and exact complaints.
- `unicode`, `json`: the calls into `std` case mapping and
  `unicode-normalization`, and the JSON value type.

`app/` holds what the verifier does not see: `serde` forms of the payload
types, request contexts behind `dyn Any`, the `inventory` registries, the error
trait, floating-point transformers, and the procedural-macro edge that reads
`syn` syntax into the library's shapes and writes its plans back as tokens.
