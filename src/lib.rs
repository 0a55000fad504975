//! Keyframe animation engine: elements with animatable properties, keyframes
//! evaluated against a timeline, and the snapshot handoff to a renderer.
//!
//! All quantities are integers: property values are fixed-point numbers with
//! [`UNIT`] standing for `1.0`, times and durations are microseconds since the
//! start of the animation, and progress along a keyframe runs from `0` to
//! [`FULL_PROGRESS`].
use vstd::prelude::*;

pub mod dom;
pub mod easing;
pub mod element;
pub mod keyframe;
pub mod placement;
pub mod scene;
pub mod smoothie;

pub use dom::Dom;
pub use easing::evaluate_easing_progress;
pub use easing::Easing;
pub use easing::FULL_PROGRESS;
pub use element::Arrow;
pub use element::Element;
pub use element::Property;
pub use keyframe::Keyframe;
pub use placement::placements;
pub use placement::Placement;
pub use scene::Scene;
pub use scene::SceneState;
pub use scene::SharedDom;
pub use scene::Snapshot;
pub use smoothie::shake;
pub use smoothie::Smoothie;

verus! {

/// The fixed-point value that stands for `1.0` in a property value.
pub const UNIT: i64 = 1_000_000;

} // verus!
