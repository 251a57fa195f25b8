# openpage routing core

A web page in openpage can be driven two ways: through a browser tab (driver
mode) or through a plain HTTP session (session mode). Every page, element and
frame operation has to decide which component carries it out, whether it is
refused in the current mode, and what context the objects it finds keep.
This crate holds those decisions, verified with Verus.

- `mode`: the two modes and their codes (`d`, `s`).
- `error`: the refusals, their kinds and their English and Chinese messages.
- `route`: what the facade does with an operation (`Route`, `Backend`, `Reply`),
  and the records that hand an operation on with its arguments (`RouteCall`,
  `LocatorRequest`, `LocatorBatchRequest`).
- `model`: web pages, elements and frames as plain values; backend objects are
  referred to by handles.
- `page`, `page_routes`, `page_flow`: routing of page operations, mode changes,
  cookie hand-over between the two sides, waits and closing.
- `element`, `element_routes`, `element_flow`: routing of element operations,
  wrapping of found elements, drags, batches of select options, and the reads
  that the facade answers itself for session elements (`ElementRead`).
- `frame`, `frame_ops`, `frame_forward`: frames, what they find (a backend's
  error is passed on unchanged), and the operations the driver frame takes.
- `wait`: one round of each polling wait (wait for a locator, session-mode
  element waits, closing the other tabs): done, timed out, or look again.
- `helpers`: the scroller, clicker, setter, selector, state, geometry and wait
  helpers of elements and pages.
- `text`: string helpers (prefix and substring tests).
- `laws`: properties that tie the operations together.

The browser driver, the session client and the DOM backends themselves are
not part of this crate: a route says which of them receives an operation, and
the functions that take a backend's result say what the facade makes of it.
