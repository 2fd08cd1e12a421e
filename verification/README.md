# crabgrab

A cross-platform screen, window and audio capture library, whose decisions
are verified with Verus.

`src/` holds what a capture backend decides, as verified code with contracts:

- `capture_stream`: stream configurations, access tokens, and the state a
  stream's callbacks share (`CaptureStream`, `StreamDelivery`).
- `capturable_content`: content filters, windows, displays and applications.
- `frame`: audio and video frames and their channel samples.
- `feature/bitmap`: copying the planes of a frame into bitmaps, and pools of
  reusable bitmap buffers.
- `feature/*`: the plane, format and error decisions of the GPU interop
  features (Metal, IOSurface, Wgpu, DXGI, DX11, Vulkan), screenshots,
  diagnostics and the content picker.
- `platform/macos`, `platform/windows`: the stream state machines of each
  platform, their content filtering, and the system encodings they read.
- `text`: decimal and hexadecimal text of numbers.

The laws of the library are public proof functions whose names begin with
`law_`: a stream delivers its end at most once and nothing after it stopped,
video and audio frame ids increase, Windows frame times are measured from the
first frame, bitmap pools reuse returned buffers, a pooled bitmap holds what
an unpooled one holds, a window is found by its id, and the system encodings
round-trip (all but the packed 10-bit `l10r` pixel code,
which Core Video has no name for here).

`app/` holds what needs threads or futures: a bitmap pool shared between
threads, screenshots as futures, and error types implementing
`std::error::Error`.
