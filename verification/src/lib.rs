//! Driver core for a grid-based illuminated button controller used as a
//! hardware volume indicator and control surface.
//!
//! The crate holds the device-independent logic: the logical pad and color
//! vocabulary, a diffing canvas that stages color writes and flushes only the
//! pads that changed, the layout vocabulary (button grids, a value bar, a
//! tabbed container), and the layout-stack engine that dispatches input and
//! applies stack transitions with `show`/`hide` sequencing.  Device transport
//! and the host mixer are collaborators: callers hand the engine sampled
//! values and raw events as plain data and perform the writes it returns.

pub mod actions;
pub mod bar;
pub mod canvas;
pub mod engine;
pub mod layouts;
pub mod model;
pub mod volume;
