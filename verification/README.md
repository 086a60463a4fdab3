# mioco

Scalable, coroutine-based, asynchronous IO handling library, with its logic verified by
[Verus](https://github.com/verus-lang/verus).

An instance executes coroutines on a number of threads, each with an event loop. A coroutine that
has to wait switches back to the handler of its thread, which executes another one.

* `src/` is the library: which coroutine runs when and where, what wakes it up, and what its
  channels, mailboxes, timers and locks do. It works on plain values. Functions return what is to be
  done outside and are told what came of it, so these decisions are all in here, and are proved.
  * `instance` configures and starts an instance; `handler` is the handler of one thread, with the
    laws that hold of it in `handler::laws`; `thread`, `table` and `slots` hold its data.
  * `api` is what a coroutine can do; `coroutine` is its state; `control` and `sched` are about
    scheduling.
  * `evented`, `event`, `timer`, `mail`, `sync` and `tcp` are what a coroutine can wait for.
  * `message`, `request` and `retry` are how threads talk to each other and to the world outside.
* `app/` is the runtime around it: native threads, event loops, stacks and sockets. It also lets go of
  what nobody needs any more: a coroutine that has ended and has no handle, and user data that no
  coroutine holds. A control that a scheduler lets go out of scope is dropped there, which kills the
  coroutine.
* `tests/` runs whole instances on a simulated event loop, and single parts.
