//! Core judgment logic for a vertically-scrolling rhythm game: a hit-window
//! classifier, per-column lanes with a monotonic resolution cursor, a
//! judgment feedback animator, a score aggregator, and the column-assignment
//! glue that partitions parsed notes into lanes.
//!
//! Time is measured in whole milliseconds from song start, and the overall
//! difficulty is carried in tenths (an overall difficulty of 5.0 is 50), so
//! that every hit-window comparison is exact integer arithmetic.

pub mod hit_score;
pub mod lane;
pub mod number;
pub mod score;
pub mod setup;

pub use hit_score::HitResult;
pub use hit_score::HitScore;
pub use lane::Lane;
pub use lane::LaneSkin;
pub use lane::TimedObject;
pub use score::ScoreAggregator;
