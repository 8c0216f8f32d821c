# vr_compositor

The frame logic of a VR compositor that serves the OpenVR compositor interface on top of an OpenXR
session, verified with Verus.

- `src/` is the library. A call of the application changes the state of the `Compositor` and yields
  a list of `Action`s; the host performs them on the runtime and on the graphics backend and hands
  the answers back. Every call has a contract that fixes the next state and the actions.
  `runtime.rs` models the order in which an OpenXR runtime accepts calls, and `history.rs` proves
  that the compositor keeps to it in every sequence of calls and answers in which a step that needs
  an image of the swapchain has one. In a frame that was begun it always has.
- `app/` is a host: it performs the actions with OpenXR handles and offers the calls of the
  interface, with their raw pointers, to applications. The graphics backend and the other parts of
  the host, such as the input and the overlays, come in through traits.
- `tests/` runs whole frames against a runtime that only keeps books, and single decisions on chosen
  values.
