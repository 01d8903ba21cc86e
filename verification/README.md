# http_connection

What an HTTP client connection decides, over HTTP/1.1 and HTTP/2, with contracts and proofs.

An exchange is a small machine. A connection's `send_request` starts it; `step` then takes what
came of the last action and gives the next one, up to `Finish`, which holds the response or an
error and tells whether the connection can be reused.

- `head_request`: the mark of an exchange that tells whether its request is a `HEAD` request
- `persistence`: what a request settles for its exchange, and whether a connection outlives it
- `body`, `message`, `error`: what the exchanges carry
- `http1`, `http2`: connections and exchanges of each protocol
- `http1_laws`, `http2_laws`: what holds of whole exchanges
- `connection`: a connection of either protocol
- `pool`: what a pool asks of a connection

`app/` performs the actions on connections of `monoio`.
