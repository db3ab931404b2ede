//! A render-state bridge between a headless, asynchronously driven map-tile
//! rendering engine and a synchronous, polling UI frame loop.
//!
//! The engine loads styles and composes tiles on its own schedule and
//! reports lifecycle events through callbacks; the UI asks "is a new frame
//! ready?" once per tick and expects a ready pixel buffer when one exists.
//! The bridge owns the engine-facing state, folds the callback-reported
//! events into a small flag record, and offers the poll-and-drain cycle
//! (`tick`, `has_update`, `take_frame`) that the UI loop calls every frame.
//!
//! Everything here is state-machine logic over plain values.  The engine
//! itself and the UI toolkit are opaque capabilities: the surrounding
//! application performs the actual render call and the actual display, and
//! hands this library the outcomes.  Lifecycle callbacks may fire from the
//! engine's own context even after the bridge was torn down; delivering an
//! event therefore needs no precondition at all and leaves a dead bridge
//! untouched.

pub mod bridge;
pub mod camera;
pub mod engine;
pub mod errors;
pub mod flags;
pub mod frame;
pub mod locations;
pub mod style_url;
