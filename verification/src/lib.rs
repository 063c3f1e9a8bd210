//! A target platform descriptor for predicate evaluation.
//!
//! A platform is described by a target triple (architecture, vendor,
//! operating system, environment), a set of compile-time target features,
//! and a set of free-form boolean flags. A predicate evaluator asks this
//! model point queries such as "is flag X set?" or "does feature Y match?".

pub mod errors;
pub mod platform;
pub mod sorted_strings;
pub mod text;
pub mod triple;

pub use errors::Error;
pub use platform::CurrentTargetInfo;
pub use platform::Platform;
pub use platform::PlatformView;
pub use platform::TargetFeatures;
pub use platform::TargetFeaturesView;
pub use triple::Triple;
pub use triple::TripleKind;
pub use triple::TripleView;
