# Bounce

An HTTP reverse proxy with a window that shows what goes through it. A request that comes in is
sent on to one upstream server, the answer goes back to the client, and both are listed in the
window.

- `src/` is the library: what the proxy and the window decide, verified with Verus.
  - `exchange` takes one request through the proxy: what is sent upstream, what is answered, what
    is recorded.
  - `server` is the life of the proxy and the numbering of its requests.
  - `app` is the window's state, `screen` what it shows, `relay` the way of the proxy's reports to
    it.
  - `text` writes and reads numbers, `types` holds what the parts tell each other.
  - `wire` states what the library takes from `hyper`, `http`, `http_body_util` and `bytes`. Of
    these crates nothing is proved.
- `app/` is the program around it: sockets, channels and widgets.
- `tests/` run the library with the real crates.
