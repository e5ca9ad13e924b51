# dsp_rs

The verified core of a Dataspace Protocol connector.

- `src/model`: the messages of the contract negotiation and transfer process
  protocols and the version metadata, with their JSON-LD forms; reading a written
  message gives it back. JSON-LD contexts and their union.
- `src/policy_engine`: negotiation of an offered ODRL policy against a required one,
  and the check of a transfer against an agreed policy.
- `src/auth`: the exponential backoff that paces token requests, the decisions of the
  token and polling flows, DID documents, presented credentials and the claims they
  give, verification sessions and requests.
- `src/connector`: `did:web` identifiers and the URLs of their documents.
- `src/reverse_proxy`: the description that the echo service answers a request with,
  and its answer to each WebSocket message.
- `src/keygen`: a connector's key pair, as PKCS#8 PEM and as a JSON web key.
- `src/json.rs`, `src/text.rs`, `src/claims.rs`: the JSON tree, string helpers and
  token claims shared by the above.

`app/` prints a generated key pair and serves the echo service: the I/O around the library.

Not part of this crate: the connector's HTTP endpoints (authentication, negotiation and
transfer handlers and their routing), the authenticator's requests to the wallet, the
verifier and other connectors, the per-connector token cache, the signing and checking
of tokens, and the request logging middleware of the test-kit mode. The library gives their decisions and
data (`auth`, `auth::model`, `connector`); the I/O around them is not written here.
The JSON forms of offers, requests and agreements, which carry ODRL policies, are not
given either.
