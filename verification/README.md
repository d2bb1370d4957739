# hiero_did_sdk

The verified core of a `did:hedera` SDK handler, written in Verus.

- `src/client.rs`: network configurations, their validation (at least one
  network, no two under one name) and the selection of the network an
  operation runs on.
- `src/did.rs`, `src/did_url.rs`: the `did:hedera:<network>:<key>_<shard.realm.num>`
  grammar and the DID URL grammar, with parse and format proved inverse.
- `src/document.rs`, `src/laws.rs`: folding a DID's topic events (owner,
  verification method and service changes, deactivation) into its document,
  and the laws of that fold.
- `src/dereference.rs`: DID URL dereferencing against a resolved document,
  and against the events of a DID's topic.
- `src/csm.rs`: attaching client-side signatures and checking a submission.
- `src/sdk.rs`: the handler and the decisions of the resolve-until polling loop.

`app/lib.rs` is the asynchronous handler that performs the network work with
the workspace's DID crates. It asks the library for configuration
validation, client selection, the grammar check of DID and DID URL strings,
and the steps of the resolve-until polling loop. The event fold,
dereferencing and the client-side signing checks run there in the workspace's
crates; the library's versions of them are models, verified and tested here
but not called by `app/`.
