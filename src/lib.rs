//! Cooperative cancellation through one shared flag: a worker loop that checks
//! the flag at the top of each round, a controller that raises it after a fixed
//! delay, and an independent background task that the flag never touches.

pub mod background;
pub mod flag;
pub mod timeline;
pub mod worker;
