//! Per-user word-guessing sessions: the rules by which a session starts,
//! takes guesses, is overtaken by its time limit and answers repeated
//! requests, stated over a mathematical model and proved.

pub mod actor;
pub mod io;
pub mod model;
pub mod oracle;
pub mod session;
pub mod table;
pub mod text;
