//! A number-guessing game as a verified state machine, together with a few
//! small verified building blocks: rectangles, coins, user records, and
//! decisions made by matching.

pub mod accounts;
pub mod coins;
pub mod functions;
pub mod input;
pub mod laws;
pub mod matching;
pub mod outcome;
pub mod session;
pub mod shapes;
pub mod target;
