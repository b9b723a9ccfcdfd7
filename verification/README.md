# mpris_client_async

A client library for MPRIS media players, in two parts.

- `src/` is the verified library (Verus): the typed `Property` and `Signal`
  traits with the `Seeked` signal; reading a track's metadata map
  (`Metadata::new_from_hashmap`), with each field stated over the map; and
  the decision core of the event loop (`PlayerLoop`), which says step by
  step what to poll next, how the tracked players change and what is
  reported, together with the gathering of subscribed streams.
- `app/` is the asynchronous side: converting D-Bus values into the
  library's plain values, type-erased property streams, and `EventLoop`, a
  `futures::Stream` that performs the polls and subscriptions the core asks
  for.

`tests/` runs the library on concrete values.
