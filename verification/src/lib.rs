//! Building blocks for an application whose input capture, simulation and
//! rendering run as three independently clocked stages.
//!
//! * [`utility::unordered_map::UnorderedMap`] hands out generational keys over
//!   densely packed storage that is compacted by swap-removal.
//! * [`render::buffer::Buffer`] mirrors a growable array into a device buffer
//!   and tracks the one contiguous range that has to be uploaded again.
//! * [`utility::bounded_spsc`], [`utility::replace_spsc`] and
//!   [`utility::consume_spsc`] hold the three transport contracts between two
//!   stages: a bounded queue, a latest-value slot and an edge-triggered signal.
//! * [`input::server::InputServer`] turns window events into input messages.
//! * [`types`] holds the records that cross the stage boundaries.
pub mod utility;
pub mod input;
pub mod render;
pub mod color;
pub mod texture;
pub mod types;
