//! Frame coordination and input-to-scene mapping for an interactive viewport.
//!
//! The library models the decision core of a windowed, continuously rendered
//! application: it converts pixel cursor positions into normalized device
//! coordinates, guards viewport resizes, keeps the camera's aspect ratio in
//! step with the viewport, drives the render-or-resize decision of each frame
//! through an explicit state machine, and turns matched keyboard shortcuts
//! into application signals. All coordinate arithmetic is exact, over
//! rational numbers, so every contract pins the precise value produced.

pub mod camera;
pub mod coordinator;
pub mod event;
pub mod frac;
pub mod mouse;
pub mod ui;
pub mod viewport;
