# pop_runtime

The decision logic of Pop's runtime additions, verified with Verus:

- `src/extension.rs`: the Pop API chain extension — which function ids are
  served, and the step-by-step handling of a contract's call into the runtime
  (read the call, resolve the origin, dispatch, answer).
- `src/fungibles.rs`: the keys of the asset state that contracts may query,
  with their wire format (encode, decode, largest size), and the fungibles
  dispatchables: the keep-alive transfer and the cancel-then-approve flow with
  the weights it reports on failure.
- `src/ismp_routing.rs`: this chain's ISMP identity, its consensus clients, and
  where incoming requests, responses and timeouts are routed.
- `src/weights.rs`: two-dimensional weights, added with `sp-weights`.

`app/` holds the runtime glue (the FRAME pallet, the `ChainExtension` and ISMP
trait impls) that performs the storage, dispatch and contract-memory work the
library asks for. `tests/` exercises the library on concrete values.
