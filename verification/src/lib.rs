//! Berlin clock (Mengenlehreuhr): a wall-clock time is decomposed into
//! five-unit and one-unit lamp counts and rendered as a five-row lamp diagram.

pub mod clock;
pub mod render;
pub mod time;

pub use clock::Clock;
pub use time::Instant;
