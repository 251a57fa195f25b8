/// Rendering and classification of refusals.
pub mod error;
/// The two modes of a web page.
pub mod mode;
/// Web pages, elements and frames as plain values.
pub mod model;
/// What the facade does with an operation.
pub mod route;
/// String helpers used by the decisions.
pub mod text;

/// Web page state, routing helpers and the wrapping of found objects.
pub mod page;
/// The route of every page operation.
pub mod page_routes;
/// Mode changes, cookie hand-over, waits and closing of pages.
pub mod page_flow;
/// The rounds of polling waits: what each look decides.
pub mod wait;

/// Element routing helpers and the wrapping of found objects.
pub mod element;
/// The route of every element operation.
pub mod element_routes;
/// Drags, select option batches and session-side element results.
pub mod element_flow;

/// Frames and what they find.
pub mod frame;
/// Searches and lookups in frames.
pub mod frame_ops;
/// The frame operations that the driver frame carries out as they are.
pub mod frame_forward;

/// The helper objects of elements and pages.
pub mod helpers;

/// Properties that tie the operations together.
pub mod laws;
