//! Verified core logic of a GraphQL gateway: schema lookups for operation
//! checks, input coercion errors, enum response decoding, subgraph request
//! bookkeeping, hook dispatch and CLI decisions.

pub mod lexical;
pub mod search;
pub mod wrapping;
pub mod order;
pub mod schema;
pub mod hooks;
pub mod coercion;
pub mod enum_seed;
pub mod subgraph_context;
pub mod publish;
pub mod completions;
