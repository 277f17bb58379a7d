# glazewm

The decision core of a window manager for Windows, verified with Verus, and the
program around it.

- `src/` is the library. It decides, orders and computes, and performs no input
  or output. Where native work and decisions take turns, a function takes the
  state and what happened and returns what to do next.
  - `geometry`, `animation`, `text`, `ids`, `model`, `state`: the basics.
  - `models`: the container tree, windows and their labels.
  - `commands`: pausing, showing the desktop, ignoring windows, which windows
    are managed at all.
  - `sync`: bringing native windows in line with the state, from the order of a
    redraw down to the calls for a single window.
  - `platform`: the queue of window positions, the event loop, the keyboard hook
    and the window listener.
  - `ipc_server`, `sys_tray`, `startup`: clients, the tray menu and the main loop.
- `tests/` runs the library on concrete values.
- `app/` is the program: native calls, sockets, threads, timers and the easing
  curves, which are floating point.

Times are in nanoseconds. A visibility or an eased share is a fixed-point number
between 0 and `FULLY_VISIBLE`.
