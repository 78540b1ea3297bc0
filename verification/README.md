# drogue_device

Verified pieces of an embedded device framework.

- `src/bsp`: the `Board` trait and, for each supported board, how its LEDs,
  buttons and UART are wired, chosen from the board's configuration; the
  STM32F072B Discovery also describes its UART routing as a text line.
- `src/synchronization`: a mutex that lends its value to one lock request at a
  time and parks the others, first come first served, in a bounded
  `heapless` queue (`waiter_queue.rs` holds the trusted calls into it).
- `app/`: the unverified rest: setting up the boards' peripherals with the
  embassy HALs, and an awaitable lock that keeps the parked tasks' wakers.
- `tests/`: executable checks of the library.
