# websocket_builder

A trait-based WebSocket framework with Axum integration, split in two crates:

- `src/` — the verified library (Verus). It holds the decisions of the
  connection loops (how each frame, timeout and loop event is handled, how
  the middleware chain is walked, when a connection is admitted), each with a
  contract; the async plumbing around them (awaiting sends and conversions,
  flushing queues, spawning tasks) stays in `app/`:
  - `connection`: connection configuration, connection limits, and the
    timer/frame state machine of a connection's read loop (idle timeout,
    maximum duration, what each frame leads to);
  - `handler`: disconnect reasons and close frames;
  - `middleware_context`: how the middleware chain is walked (inbound in
    order, outbound in reverse), the message sender that tags messages with
    the middleware index, and errors that carry the connection state;
  - `websocket_builder`: the single-loop handler's event decisions and
    builder settings;
  - `split_actors`, `actor_websocket_handler`: the reader decisions of the
    actor-based handlers;
  - `websocket_trait`: framework-independent messages and frame decoding.
- `app/` — the asynchronous runtime around it: Axum routes and upgrades,
  the socket loops, the middleware trait and its contexts, the actors.
- `tests/` — tests of the library.
