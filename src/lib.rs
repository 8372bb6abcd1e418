//! Rendering a collection of drawable components, in two ways: a screen of
//! boxed trait objects whose shapes may differ element to element, and a
//! screen fixed to one component type. Both render in insertion order, one
//! line of text per component.

pub mod draw;
pub mod screen;
pub mod widgets;

pub use draw::{CapabilityObject, Draw};
pub use screen::{Screen, Screen1};
pub use widgets::{Button, SelectBox};
