# sui_rpc

The decisions behind the Sui JSON-RPC server set-up and the GraphQL root
query, written in Verus and proved against their contracts.

- `src/server.rs`: the server builder (registering RPC modules, planning the
  router) and the laws of registration.
- `src/methods.rs`: the `jsonrpsee` method collections, seen as sets of
  method names, behind trusted wrappers.
- `src/cors.rs`: the CORS policy, splitting and checking the allowed origins.
- `src/routing.rs`: routes per transport and the method-routing switch.
- `src/rpc_doc.rs`: the OpenRPC document's metadata.
- `src/query.rs`: which lookup a GraphQL query asks of the data store.
- `src/bridge_error.rs`: the bridge error type.
- `app/`: reading the environment, building the axum router and serving it.
