//! A pomodoro timer: a state machine that walks through work and break
//! phases against injected timestamps, with the decisions of the polling
//! loop and the indicator's byte reports kept beside it.

pub mod time;
pub mod tracker;
pub mod button;
pub mod manager;
