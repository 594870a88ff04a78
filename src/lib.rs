//! Live reloading of the splits, layout and auto splitter files behind a
//! LiveSplit One overlay: one filesystem watch per slot, filtering of the
//! watcher's events down to the one file of interest, and the reload steps
//! that each changed file triggers.

pub mod paths;
pub mod watcher;
pub mod slots;
pub mod reload;
pub mod display;
