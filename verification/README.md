# tether

Remote desktop: a host streams its screen to a controller and injects the input
that comes back. Hosts and controllers meet on the LAN or, through a signaling
server, over WebRTC.

- `src/` is the library, verified with Verus: the wire protocol and its chunk
  framing, device pairing, the signaling directory with its identity pins and
  TURN credentials, adaptive bitrate, clipboard sync, the capture loop, input
  translation, who may connect, H.264 framing, and the steps of a session on
  either transport.
  Each `laws` module states what holds across functions.
- `tests/` runs the library.
- `app/` is the program around it: `tether host` and `tether signal`. It does the
  I/O and the platform calls; what to do about what happens, it asks the library.

What the proofs rest on beside Verus is declared in `src/buffers.rs`
(`bytes`), `src/crypto.rs` (`hmac`, `sha1`, `sha2`, `subtle`, `getrandom`, `hex`,
`base64`, `ed25519-dalek`) and `src/text.rs` (parts of std).
