# winit-block-on

Block on a future with the `winit` event loop.

`winit` does not support `async` programming by default. This crate lets an event loop
poll a future: whenever the loop is about to wait, and only if the future was woken since
its last poll. A future that may return a value is polled when the loop is exiting too,
and not any more once it has returned. Wakeups travel through the loop as user events and are kept from the
user's handler.

* `src/` is the library, verified with Verus. It decides and performs nothing:
  * `signal`: the user event of the loop, a value of the user or a wakeup;
  * `event`: the events of the loop and what the handler is to see of them;
  * `turn`: what one event leads to;
  * `block_on`: blocking on a future that never returns;
  * `run_return`: blocking on a future until it returns a value or the loop exits;
  * `builder`: building an event loop that carries signals;
  * `laws`: what holds over a whole run, such as that no wakeup is lost.
* `app/` runs `winit`'s loop, calls the handler, polls the future and sends the wakeups,
  as the library says. It offers `block_on` and `block_on_return` on `EventLoop`.
* `tests/` runs the library on concrete events and futures.

The user event needs to be `Send` and `'static`, since a proxy of the loop is put into a
`Waker`. Unless the future may return a value, it needs to be `'static` too.
