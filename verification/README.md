# agentgateway_mcp

The decisions that an MCP gateway makes, written in Verus.

- `src/` is the library. Its functions carry contracts, and Verus proves them. What is not proved
  are the wrappers around outside crates; those that draw random bytes or read the clock claim
  nothing of the outcome.
  - `endpoint`, `login`, `exchange`, `oauth`, `token`, `seal`: the gateway as OAuth
    authorization server in front of a Keycloak realm. It stores nothing: what it must remember
    travels sealed in `state` and `code`. `roundtrip` holds what is true of a login from end to
    end.
  - `error`, `proxy`, `jsonrpc`: how errors and limits reach an MCP client.
  - `info`, `routing`, `methods`: what is known of a request, and which target it is for.
  - `text`, `form`, `json`, `response`, `weburl`, `clock`: building blocks, and most of the
    wrappers around outside crates. What a wrapper claims of its crate stands above it; that is
    what the proofs rest on.
- `tests/` runs the library with the real outside crates.
- `app/` is ordinary Rust around it: transport, serialization, metrics.

Loopback redirect URIs are always allowed. No other one is built in: the callback of a hosted
client is allowed where the operator lists it in `McpAuthentication::allowed_redirects`.
