# mcserver

A small Minecraft 1.19.3 server. The protocol logic is a Verus-verified library under
`src/`; `app/` holds the program around it (sockets, tasks, files, and the
floating-point arithmetic of player movement).

- `varint`: var-int writing, reading from a buffer, and a byte-at-a-time decoder for streams.
- `wire`: big-endian integers and slicing the front of a buffer.
- `strings`: length-prefixed UTF-8 strings and chat components.
- `position`: packed block positions.
- `frame`: packet framing and chat bodies.
- `packets`: packet ids.
- `structs`, `players`: players, the server-list answer, the save record.
- `packet_out`, `session`: bodies of the packets sent while logging in and playing.
- `commands`, `play`: chat commands and the answer to each play packet.

The encodings (`varint`, `wire`, `strings`, `position`, `frame`, `players`) state their
read-after-write laws as proof functions next to the code; the other modules state
exact contracts on each function.
