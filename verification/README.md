# neo4g

A typed builder for Cypher queries against Neo4j, verified with Verus.

- `src/` is the library. `builder` holds `Neo4gBuilder` and the CREATE,
  MERGE and MATCH statements; `state` the state they share; `filter`,
  `functions` and `arrays` the WHERE conditions, function calls and list
  parameters; `patterns`, `objects` and `entity_wrapper` the entity types and
  the node and relation patterns they write; `rows` how a returned column
  is read back; `laws` and `round_trips` what holds across calls.
  `external` holds the trusted wrappers around `neo4rs`, `uuid`, `heck` and
  std.
- The entity types are written out by hand in `objects` and
  `entity_wrapper`; there are no derive macros for them in the library.
- `app/` connects to a database (settings from `.env`), runs a query built
  with the library and prints the entities read back.
- `tests/` checks the builder's output on concrete queries.
