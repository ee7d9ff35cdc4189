//! Core of a belief-update / message-filtering / ignition pipeline.
//!
//! The session keeps a probabilistic belief over a discrete hidden-state
//! space, updates it per event, filters competing interpretive messages
//! through an efficiency gate with a coarse-graining step, and decides
//! whether to admit a combined correction ("ignition").  This crate holds
//! the discrete, verified parts of that pipeline: observation-index
//! raveling, the ignition decision classifier, the bounded history window,
//! the coarse-space expansion layout, and event-dimension validation.

pub mod broadcast;
pub mod event;
pub mod ignition;
pub mod memory;
pub mod util;

pub use util::ravel_multi_index;
