# cacp

A compact implementation of the Agent Client Protocol v1, with its logic
verified by Verus.

- `src/` is the verified library: the wire types, the method names and how an
  incoming call is routed by them, the JSON-RPC envelope and how a frame is
  told apart, the bookkeeping of a connection (calls waiting for answers,
  requests being served, what the read loop does with each frame), tool call
  updates, client-side history forks, the event channel's refusals, and the
  installer's path and manifest rules. Each public function states what it
  returns in its `ensures`; the laws that tie functions together are public
  proof functions beside them.
- `app/` is the runtime around it: serde copies of the wire types, the tokio
  tasks that carry a connection, the agent and client roles, the event
  channel, and the installer's disk and process work.
- `tests/` runs the library on concrete values.

`serde_json::Value` is opaque to the library: it is carried, and the few
shapes the library builds (strings, numbers, objects) are built through small
trusted wrappers in `src/json.rs` whose contracts name what they return.
