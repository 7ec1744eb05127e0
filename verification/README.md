# sgc_services

Service bridging for robots that reach each other over a global data plane. A robot that uses a
ROS service and a robot that runs it find each other through lists in a key-value store, open a
data channel, and carry requests and responses across it as JSON.

`src/` is the library, written in Verus. Every function carries a contract.

- `text`: texts as sequences of characters, fields between separators
- `encoding`: UTF-8
- `gdp`: names, packets and changes of the forwarding table
- `payload`: messages as JSON payloads
- `exchange`: one request and its response
- `sessions`: which requests, calls and responses follow each other
- `topics`: what a request to modify a topic changes
- `signaling`: addresses that two nodes meet at
- `discovery`: how the two ends of a service find each other
- `protocol`: what each end does for that, in which order
- `kvs`: notifications of the key-value store
- `manager`: requests of the control interface
- `tls`, `dtls`: DTLS contexts, the echo service and its test client

Names are written as four fields between commas. The library takes written names and the
addresses of topics as arguments; how they are made is up to the node. A packet is identified by
the hash of a text: the library gives the text, and the node hashes it.

`app/` runs the library on real channels, sockets and stores. The node around it supplies names,
forwarding tables, data channels and ROS through the traits in `app/node.rs`. `tests/` holds the
library's tests.
