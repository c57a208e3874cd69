//! Moving audio between a sampler's removable storage and a slug-named
//! library tree: path layout, structure validation and copy planning.

pub mod copy;
pub mod disk;
pub mod listing;
pub mod operator;
pub mod paths;
pub mod song;
pub mod sync;
