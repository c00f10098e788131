//! A focus-timer core: a session state machine that owns at most one running
//! session, reports remaining time, and decides what a periodic tick must do.
pub mod session;
pub mod storage;
