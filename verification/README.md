# kao-proxy

A small proxy between a wallet and an Ethereum node provider. It holds the provider key, so that
wallets need none, and the requests that it makes to the provider hold nothing of a wallet but the
question itself. What such a request holds is proved in `src/`; that it is sent as it stands rests on
`app/`, and on reqwest, which adds what HTTP needs.

- `src/` is the proxy's logic, verified with Verus: chain names, the method filter, address
  validation, upstream requests, answers, configuration and the search for the key.
  - `text`: operations on texts and decimal numbers
  - `nesting`: how deep the JSON reader recurses on bytes
  - `json`: JSON documents, and the calls into `serde_json`
  - `config`: the key, the chain registry, the configuration
  - `upstream`: the requests to the provider
  - `routes`: the decision on each route, and the answers
- `app/` is the server around it: the environment, axum and reqwest.
- `tests/` runs the logic from a caller's request to the answer.

A handler returns the request to send, or an error. `routes::relay` turns what came back into the
answer: the provider's status and body, unchanged. The laws of the library are the public proof
functions whose names begin with `law_`.
