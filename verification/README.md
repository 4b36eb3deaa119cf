# uniclip

A clipboard that is shared over the network: what is copied on one machine can be pasted on
the other. One side listens (`-s`), the other side connects.

The rules of the program are a library that is verified with Verus. It does no input or
output itself: its machines say what is to be done next, and are told what came of it.

- `src/error.rs`: errors, how they read, and what a report of one does
- `src/options.rs`: settings
- `src/timestamp.rs`: the clock
- `src/wire.rs`, `src/message.rs`: the bytes of integers, headers and packets
- `src/picture.rs`: pictures as PNG files
- `src/proto.rs`: what a connection does with messages
- `src/session.rs`: the life of a connection
- `src/endpoint.rs`: how connections come about
- `src/clipboard.rs`: what is known of the clipboard, and when contents replace each other
- `src/listener.rs`: the task that owns the clipboard
- `src/session_laws.rs`, `src/listener_laws.rs`: what holds of every session and every
  listener, and of contents on their way from one clipboard to the other
- `app/`: the program around the library

A packet is the eight bytes `UNICLIP!`, the length of the content (32 bits), a stamp (seconds
since the Unix epoch, 64 bits) and the kind of message (8 bits), followed by the content.
Integers are in the byte order of the machine, so both sides must have the same.
