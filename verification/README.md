# poll_promise

A promise for games and immediate-mode GUIs: start a background operation,
then ask on each frame "are we there yet?" until its value arrives.

- `src/` is the verified library (Verus). `promise.rs` holds `Promise`,
  `Sender` and the step functions `settled` and `polled` that the contracts
  are written in; `laws.rs` proves what holds across calls (a ready promise
  stays ready with the same value; a pending answer changes nothing);
  `channel.rs` and `executor.rs` hold the trusted wrappers around
  `std::sync::mpsc` and the `smol` executors.
- `app/` is the runtime glue: the process-wide `smol` executors and the
  functions that spawn threads and tasks which fulfil promises.
- `tests/` exercises the library on concrete values.

A dropped sender is reported as `SenderDropped` instead of a panic, and the
polling methods take `&mut self`, since they move the promise from pending to
ready.
