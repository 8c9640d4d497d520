# p2pchat

A peer-to-peer chat over libp2p: a daemon that finds peers on the local
network, exchanges direct messages and friend requests with them, keeps its
contacts and messages in SQLite, and serves terminal interfaces over a Unix
socket.

The library in `src/` holds the logic, each function with a contract that
Verus proves:

- `codec`: the length-prefixed frames on the socket, with the law that a
  frame reads back as the payload it carries.
- `types`, `api`: the data model and the messages between daemon and
  interface, with the numeric codes of the enums.
- `network`: the commands of the event loop, the requests held back until
  their peer connects (`network::buffer`), and the decisions taken on swarm
  events and commands (`network::events`).
- `tracker`: the HTTP tracker's addresses, replies and registration body.
- `settings`, `setup`, `setup_tui`: the settings, their completion and the
  two setup screens.
- `tui`, `chat_tui`, `chat_view`: the two chat interfaces and what they show.
- `db`: the statements and row readers of the database.
- `signable`: signed values.
- `bridge`: the calls into `base64`, `chrono`, `uuid` and `libp2p`, each with
  the contract the rest of the library relies on.

`app/` is the program around it: the libp2p swarm, SQLite, the socket, the
terminal and the HTTP client, each driven by the library's decisions.
