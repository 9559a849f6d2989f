//! State engine of a simulated operations dashboard: selection cursors,
//! sample generators, sliding sample windows and the tick/key state machine
//! that ties them together.

pub mod dashboard;
pub mod generator;
pub mod selection;
pub mod window;
