# mcp_ext_authz

External authorization for backends of the Model Context Protocol. A gateway asks
an authorization service about a request; this crate decides what is asked, what
the answer means, and what a refused caller is told.

## Layout

- `src/` is the library, verified with Verus.
  - `ext_authz`: the question, the verdict, and what happens when the service
    cannot be asked.
  - `body`, `headers`, `metadata`: what of a request goes into the question, and
    the metadata that comes back.
  - `answer`: what a refused caller is answered.
  - `config`, `snapshot`, `resource`, `service`: the data that these work on.
  - `json`, `table`, `status`, `text`: JSON trees, tables by name, status codes
    and numbers as text.
  - `counter`: a small server to try a gateway on.
- `app/` puts the library to work: the network, conversions to the types of other
  crates, and the protocol handlers of the counter server.
- `tests/` runs the library.

What the gateway around it supplies comes in as closures: how the values of a
header become one text, how an expression is evaluated, how headers that the
service names become a header map, and how the question is sent. The contracts
say what is handed to each and what is done with what it returns.

The calls into `http`, `bytes`, `prost-types` and `serde_json` stand behind small
functions whose contracts are believed, not proved; each says above it what it
claims.
