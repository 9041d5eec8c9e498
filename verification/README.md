# rstutorial

Verified decision logic of two GStreamer aggregator elements:

- `simple_agg`: the first buffer found on its video sink pads decides each
  aggregate call: it is forwarded when it has a presentation timestamp, and the
  call fails with `Error` when it has none. Source-caps requests are answered
  from the latest parsed video caps.
- `dynamic_agg`: takes one buffer from the video pad `sink`, decodes the text
  buffers of the `comm_%u` pads as UTF-8 and keeps every text buffer; a text
  buffer that cannot be decoded ends the call with `Error`, otherwise it
  finishes the video buffer or pushes a gap event.

`src/` holds the element state, the per-event decisions, the pad templates and
metadata as plain values, and the laws proved of them. The state is generic
over the video description, caps and buffer types; `app/` instantiates it with
the GStreamer types, performs the pad and buffer operations and registers the
elements.
