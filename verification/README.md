# cyrok

A tunnel server and client in the style of ngrok: the server accepts TLS control
connections from clients, opens tunnels on their behalf, and routes public HTTP
requests to the client that owns the tunnel named by the request's `Host`.

The library under `src/` is verified with Verus:

- `message`: the protocol messages, their JSON form, and the envelope that carries them;
- `json`: JSON documents as plain values, read and written field by field;
- `connection`: the length-prefixed framing of messages;
- `server`: options, session and tunnel registries, tunnel URLs, the decisions taken on a
  control connection, the routing of HTTP requests and tunnel connections, PEM reading;
- `client`, `cli`: command-line options, configuration and logger set-up;
- `address`, `text`: addresses and string helpers.

`app/` holds the programs around it: argument parsing with clap, sockets and TLS with
tokio, JSON text with serde_json, logging. `tests/` runs the library on concrete values.
