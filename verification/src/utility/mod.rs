pub mod bounded_spsc;
pub mod consume_spsc;
pub mod replace_spsc;
pub mod unordered_map;
pub mod unordered_tracker;
