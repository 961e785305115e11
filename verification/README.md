# active_request

The server-side handle of a request received over an iceoryx2
request-response service, written in Verus.

- `src/` is the verified library: the received chunk (`RawSample`, with the
  request header, user header and payload), where it lives and who sent it
  (`ChunkDetails`), the client id (`UniqueClientId`), and `ActiveRequest`,
  whose contracts state what each accessor returns, which client `origin`
  names, and the ordered steps (`release_steps`) that hand the chunk back:
  unregister its offset, then release that offset over channel 0.
  `release_outcome` judges the receiver's answer to the release.
  `src/external.rs` holds the trusted declarations and wrappers of the
  iceoryx2 building-block crates.
- `app/` holds the owning handle that keeps the connection, performs the
  release steps on drop in the order given, and formats itself for `Debug`.
- `tests/` runs the library against the real outside crates.
