//! A console log sink: severity filtering and the exact layout of every
//! emitted line. The caller reads the clock and owns the output; the
//! rendering of a clock reading and the terminal colouring are each kept
//! behind one narrow, documented boundary.

pub mod level;
pub mod line;
pub mod record;
pub mod sink;
pub mod text;
pub mod timestamp;

pub use level::{Level, Tint};
pub use record::Record;
pub use sink::ConsoleLogger;
pub use timestamp::{Reading, Timestamp};
