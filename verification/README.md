# rentamac

Screen capture and reliable-UDP transport for a remote-desktop Mac host, with its
decisions verified in [Verus](https://github.com/verus-lang/verus).

* `src/screencapturekit/` brings a ScreenCaptureKit stream up and down and turns its
  frame callbacks into frames. `laws.rs` proves that no run of replies from the system
  makes it leak or over-release a reference. (Shareable content that arrives after the
  wait for it is over is not such a reply; its reference is lost.)
* `src/mac/` has the displays and the capturer, which falls back from ScreenCaptureKit
  to the legacy display stream and passes on only frames that changed.
* `src/kcp_stream/` has the KCP handshakes and the datagram loop. `laws.rs` proves that
  a failed handshake leaves no loop behind; `io.rs` proves that the loop carries every
  packet, in order.
* `src/slot.rs` is the one-place mailbox between a callback and a capturer.
* `app/` does the outside work: Objective-C messages, CoreVideo buffers, UDP sockets
  and KCP endpoints.

A part of the library that needs outside work is a value with a state. It names the
step to do next; the caller does it and hands the outcome back.
