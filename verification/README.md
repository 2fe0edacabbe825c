# mcp_client

A client for servers that speak the Model Context Protocol over HTTP. It sets up a session, lists
the tools of the server, calls them, and carries out the tool calls that a chat model asks for.

## Layout

- `src/` is the library, verified with Verus. It holds every decision of the client and does no
  input or output. An operation is a sequence of steps: a step asks its caller to wait, to send a
  request and to come back with the answer, or it gives the outcome.
  - `client` and `helper`: the operations
  - `operation`: what each operation does, as transitions of the client's state
  - `request` and `reply`: what is sent, and what comes back
  - `retry` and `error`: what is tried again, and what can go wrong
  - `http`, `json`, `tool`, `text`: the values that the others speak of
  - `codec`: documents to and from text
  - `laws`: what holds of the client as a whole
- `app/` is the asynchronous client around the library. It sends the requests with `reqwest`, waits,
  and reads the environment and the clock.
- `tests/` runs the library on concrete values.

## What is trusted

The library calls `serde_json` to parse and write documents, and `reqwest` for its errors and the
names of statuses. What it takes from them without proof stands next to each call, in `codec`,
`http`, `json` and `request`; of the standard library it is one function, in `text`.

## Use

```rust,ignore
let mut step = client.get_tools(now());
let tools = loop {
    match step {
        Step::Done(outcome) => break outcome?,
        Step::Exchange { stage, delay_ms, request } => {
            let answer = exchange(delay_ms, request).await;
            step = client.resume_get_tools(stage, answer, now());
        }
    }
};
```
