# bevy_s2n_quic

A QUIC networking layer for the Bevy engine, built on s2n-quic and tokio.

- `src/` is the verified library: identifiers and their unique generation,
  application error codes and status codes, connection and stream errors and
  the disconnect reasons derived from them, the attempt state machine that hands
  an asynchronous result out once, the task states through which the end of a
  task is learnt, the decision cores of the connection, send and receive tasks,
  the orchestrator's round-robin dispatch and task clean-up, and the
  synchronous handles on connections and streams. Every hand-off of a value to
  a channel goes through one trusted call that returns, with the channel's
  answer, a record of the offer (the value, the channel, what the channel did
  with it); the functions that hand values on return these records, so their
  contracts say what was offered, where, and in what order. Writing the
  once-cell that publishes a task's end, and closing a connection directly,
  return records of the same kind.
- `app/` holds what runs around it: the asynchronous tasks that carry out the
  decisions of the cores, the runtime, the Bevy plugins and systems, the client,
  and the conversions from s2n-quic's types.
- `tests/` exercises the library on concrete values.
