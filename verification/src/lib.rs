//! Filtering of nested variant records ("bubbles") by size and nesting depth.
//!
//! A run makes two passes over the same stream of records. The first pass
//! gives every record a local verdict and remembers the ids of the records
//! that were popped for their size. The second pass writes every record that
//! was kept, and promotes a record that was only too deep when its immediate
//! parent was popped and the record itself was not.

pub mod classify;
pub mod emit;
pub mod error;
pub mod laws;
pub mod popped;
pub mod record;
pub mod thresholds;
