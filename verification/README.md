# monoio

A thread-per-core runtime on `io_uring`, with its rules verified by Verus.

The library (`src/`) decides and the host (`app/`) performs. Where a decision
alternates with a system call, the library offers a small machine: it names the
one action it waits for, the host carries that action out and tells the machine
what it brought.

| Module | What it holds |
| --- | --- |
| `scheduler`, `context` | the two-tier run queue, spawning, handles on other threads |
| `runtime`, `runtime_laws` | the run loop, and what holds of every run of it |
| `stall` | the stall detector |
| `client_gate`, `reactor_park` | the per-shard counters |
| `wakers` | the channel through which other threads hand wakers in |
| `uring::setup`, `uring::setup_laws` | building a ring, with or without the modern setup flags |
| `uring::entry`, `uring::errno` | ring entries and error numbers as plain values |
| `uring::slab`, `uring::ops`, `uring::inner` | operations from submission to collection |
| `uring::park`, `uring::driver` | how the reactor spins, sleeps and wakes |
| `uring::op_laws`, `uring::park_laws`, `uring::park_time_laws` | what holds of every operation, of every park, and of the time it counts |
| `text` | reading settings |

The host reads two settings from the environment: `MONOIO_PREEMPT_US`, how long
tasks run on end before the loop turns to I/O, and
`ADAMAS_IOURING_MODERN_FLAGS`, whether rings are built with the modern flags.
